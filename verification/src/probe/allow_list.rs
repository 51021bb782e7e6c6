//! Vendor and product identifiers that discovery accepts.

use vstd::prelude::*;
use vstd::std_specs::convert::TryFromSpecImpl;

use crate::error::IntErrorKind;
use crate::error::ViewerOptionConfigError;
use crate::text::parse_hex_from;
use crate::text::read_hex;
use crate::text::skip_leading;
use crate::text::to_chars;
use crate::text::without_leading;

verus! {

/// One entry of an allow-list as it is written down: two hexadecimal
/// numbers, each with a `0x` in front.
#[derive(Debug, Clone, PartialEq, Eq)]
pub struct UsbStringDef {
    pub vid: String,
    pub pid: String,
}

/// One entry of an allow-list: a vendor and a product identifier.
#[derive(Debug, Clone, Copy, PartialEq, Eq, Structural)]
pub struct UsbDefinition {
    pub vid: u16,
    pub pid: u16,
}

/// The two bundled tables: the identifiers of the canonical device, and those
/// of the generic compatible microcontrollers.
#[derive(Debug, Clone, PartialEq, Eq)]
pub struct AllowLists {
    pub exact: Vec<UsbDefinition>,
    pub relaxed: Vec<UsbDefinition>,
}

/// What a written identifier reads as: the text after every leading `0x`,
/// taken as a 16-bit number in base sixteen.
pub open spec fn read_identifier(text: Seq<char>) -> Result<int, IntErrorKind> {
    read_hex(without_leading(text, "0x"@), u16::MAX as int)
}

/// Whether `(vid, pid)` is an entry of `list`.
pub open spec fn listed(list: Seq<UsbDefinition>, vid: u16, pid: u16) -> bool {
    exists|i: int| 0 <= i < list.len() && (#[trigger] list[i]).vid == vid && list[i].pid == pid
}

/// Reads a written identifier.
pub fn parse_identifier(text: &str) -> (parsed: Result<u16, IntErrorKind>)
    ensures
        parsed matches Ok(v) ==> read_identifier(text@) == Ok::<int, IntErrorKind>(v as int),
        parsed matches Err(e) ==> read_identifier(text@) == Err::<int, IntErrorKind>(e),
{
    let chars = to_chars(text);
    let mark = to_chars("0x");
    let from = skip_leading(&chars, &mark);
    match parse_hex_from(&chars, from, 0xFFFF) {
        Ok(v) => Ok(v as u16),
        Err(e) => Err(e),
    }
}

impl UsbDefinition {
    /// What a written entry reads as. The product identifier is read first:
    /// where both are unreadable, the fault reported is its own.
    pub open spec fn read(def: UsbStringDef) -> Result<UsbDefinition, IntErrorKind> {
        match read_identifier(def.pid@) {
            Err(e) => Err(e),
            Ok(pid) => match read_identifier(def.vid@) {
                Err(e) => Err(e),
                Ok(vid) => Ok(UsbDefinition { vid: vid as u16, pid: pid as u16 }),
            },
        }
    }

    /// What a table of written entries reads as: entry by entry, or the
    /// fault of the first entry that cannot be read.
    pub open spec fn read_all(defs: Seq<UsbStringDef>) -> Result<Seq<UsbDefinition>, IntErrorKind>
        decreases defs.len(),
    {
        if defs.len() == 0 {
            Ok(Seq::empty())
        } else {
            match UsbDefinition::read_all(defs.drop_last()) {
                Err(e) => Err(e),
                Ok(entries) => match UsbDefinition::read(defs.last()) {
                    Err(e) => Err(e),
                    Ok(entry) => Ok(entries.push(entry)),
                },
            }
        }
    }

    /// Reads a written entry.
    pub fn parse(def: &UsbStringDef) -> (entry: Result<UsbDefinition, IntErrorKind>)
        ensures
            entry == UsbDefinition::read(*def),
    {
        let pid = match parse_identifier(def.pid.as_str()) {
            Ok(pid) => pid,
            Err(e) => {
                return Err(e);
            },
        };
        let vid = match parse_identifier(def.vid.as_str()) {
            Ok(vid) => vid,
            Err(e) => {
                return Err(e);
            },
        };
        Ok(UsbDefinition { vid, pid })
    }

    /// Whether this entry stands for the port identifiers `(vid, pid)`.
    pub fn matches(&self, vid: u16, pid: u16) -> (same: bool)
        ensures
            same == (self.vid == vid && self.pid == pid),
    {
        self.vid == vid && self.pid == pid
    }
}

impl TryFrom<UsbStringDef> for UsbDefinition {
    type Error = IntErrorKind;

    fn try_from(def: UsbStringDef) -> (entry: Result<UsbDefinition, IntErrorKind>) {
        UsbDefinition::parse(&def)
    }
}

impl TryFromSpecImpl<UsbStringDef> for UsbDefinition {
    open spec fn obeys_try_from_spec() -> bool {
        true
    }

    open spec fn try_from_spec(def: UsbStringDef) -> Result<UsbDefinition, IntErrorKind> {
        UsbDefinition::read(def)
    }
}

/// Reads a table of written entries, in order. A table with an entry that
/// cannot be read is no table: the first such entry's fault is returned.
pub fn parse_allow_list(defs: &Vec<UsbStringDef>) -> (list: Result<
    Vec<UsbDefinition>,
    ViewerOptionConfigError,
>)
    ensures
        list matches Ok(entries) ==> UsbDefinition::read_all(defs@) == Ok::<
            Seq<UsbDefinition>,
            IntErrorKind,
        >(entries@),
        list matches Err(e) ==> UsbDefinition::read_all(defs@) matches Err(kind) && e
            == ViewerOptionConfigError::HexNumberParseError(kind),
{
    let mut entries: Vec<UsbDefinition> = Vec::new();
    let mut i: usize = 0;
    assert(defs@.take(0) == Seq::<UsbStringDef>::empty());
    while i < defs.len()
        invariant
            i <= defs.len(),
            UsbDefinition::read_all(defs@.take(i as int)) == Ok::<Seq<UsbDefinition>, IntErrorKind>(
                entries@,
            ),
        decreases defs.len() - i,
    {
        assert(defs@.take(i + 1).drop_last() == defs@.take(i as int));
        assert(defs@.take(i + 1).last() == defs@[i as int]);
        match UsbDefinition::parse(&defs[i]) {
            Ok(entry) => {
                entries.push(entry);
            },
            Err(kind) => {
                proof {
                    assert(UsbDefinition::read_all(defs@.take(i + 1)) == Err::<
                        Seq<UsbDefinition>,
                        IntErrorKind,
                    >(kind));
                    lemma_read_all_fails_on(defs@, i + 1);
                }
                return Err(ViewerOptionConfigError::HexNumberParseError(kind));
            },
        }
        i += 1;
    }
    assert(defs@.take(i as int) == defs@);
    Ok(entries)
}

/// Where the beginning of a table cannot be read, neither can the table, and
/// the fault is the same.
proof fn lemma_read_all_fails_on(defs: Seq<UsbStringDef>, len: int)
    requires
        0 <= len <= defs.len(),
        UsbDefinition::read_all(defs.take(len)) is Err,
    ensures
        UsbDefinition::read_all(defs) == UsbDefinition::read_all(defs.take(len)),
    decreases defs.len(),
{
    if len == defs.len() {
        assert(defs.take(len) == defs);
    } else {
        assert(defs.drop_last().take(len) == defs.take(len));
        lemma_read_all_fails_on(defs.drop_last(), len);
    }
}

/// Whether `(vid, pid)` is an entry of `list`.
pub fn is_listed(list: &Vec<UsbDefinition>, vid: u16, pid: u16) -> (found: bool)
    ensures
        found == listed(list@, vid, pid),
{
    let mut i: usize = 0;
    while i < list.len()
        invariant
            i <= list.len(),
            forall|j: int| 0 <= j < i ==> !((#[trigger] list@[j]).vid == vid && list@[j].pid == pid),
        decreases list.len() - i,
    {
        if list[i].matches(vid, pid) {
            return true;
        }
        i += 1;
    }
    false
}

} // verus!
