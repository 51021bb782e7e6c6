use b0xx_viewer::controllers::ControllerState;
use b0xx_viewer::error::IntErrorKind;
use b0xx_viewer::error::IoErrorKind;
use b0xx_viewer::error::SerialPortError;
use b0xx_viewer::error::SerialPortErrorKind;
use b0xx_viewer::error::ViewerError;
use b0xx_viewer::error::ViewerOptionConfigError;
use b0xx_viewer::logger::Logger;
use b0xx_viewer::probe::ControllerMessage;
use b0xx_viewer::ui::app::AppStep;
use b0xx_viewer::ui::app::ViewerApp;
use b0xx_viewer::ui::app::ViewerAppStatus;

fn held_a() -> ControllerState {
    let mut state = ControllerState::default();
    state.a = true;
    state
}

#[test]
fn viewer_starts_undefined() {
    let app = ViewerApp::default();
    assert_eq!(app.state, ControllerState::default());
    assert_eq!(app.status, ViewerAppStatus::Undefined);
    assert!(!app.is_draggable && !app.is_dragged);
    assert_eq!(ViewerAppStatus::default(), ViewerAppStatus::Undefined);
}

#[test]
fn set_running_from_any_status() {
    for status in [
        ViewerAppStatus::Running,
        ViewerAppStatus::Reconnecting,
        ViewerAppStatus::NeedsReconnection,
        ViewerAppStatus::Undefined,
    ] {
        let mut status = status;
        status.set_running();
        assert_eq!(status, ViewerAppStatus::Running);
    }
    assert!(ViewerAppStatus::Reconnecting.is_waiting());
    assert!(ViewerAppStatus::NeedsReconnection.is_waiting());
    assert!(!ViewerAppStatus::Running.is_waiting());
    assert!(!ViewerAppStatus::Undefined.is_waiting());
}

#[test]
fn update_state_reports_changes() {
    let mut app = ViewerApp::default();
    assert!(!app.update_state(ControllerState::default()));
    assert!(app.update_state(held_a()));
    assert_eq!(app.state, held_a());
    assert!(!app.update_state(held_a()));
    assert!(app.update_state(ControllerState::default()));
    assert_eq!(app.status, ViewerAppStatus::Undefined);
}

#[test]
fn messages_drive_the_viewer() {
    let mut app = ViewerApp::default();
    assert_eq!(app.on_message(None), AppStep::Carry);
    assert_eq!(app, ViewerApp::default());
    assert_eq!(app.on_message(Some(ControllerMessage::State(held_a()))), AppStep::Redraw);
    assert_eq!(app.status, ViewerAppStatus::Running);
    assert_eq!(app.state, held_a());
    assert_eq!(app.on_message(Some(ControllerMessage::State(held_a()))), AppStep::Carry);
    assert_eq!(app.on_message(Some(ControllerMessage::Reconnect)), AppStep::Carry);
    assert_eq!(app.status, ViewerAppStatus::NeedsReconnection);
    assert_eq!(app.state, held_a());
    assert_eq!(app.on_message(Some(ControllerMessage::State(held_a()))), AppStep::Carry);
    assert_eq!(app.status, ViewerAppStatus::Running);
    let failure = ControllerMessage::Error(ViewerError::UnknownError);
    assert_eq!(app.on_message(Some(failure)), AppStep::Carry);
    assert_eq!(app.status, ViewerAppStatus::NeedsReconnection);
    let before = app;
    assert_eq!(app.on_message(Some(ControllerMessage::Quit)), AppStep::Exit);
    assert_eq!(app, before);
}

#[test]
fn reconnection_begins_only_where_it_is_needed() {
    for status in [ViewerAppStatus::Running, ViewerAppStatus::Reconnecting, ViewerAppStatus::Undefined] {
        let mut app = ViewerApp::default();
        app.status = status;
        let before = app;
        assert!(!app.begin_reconnection());
        assert_eq!(app, before);
    }
    let mut app = ViewerApp::default();
    app.state = held_a();
    app.is_draggable = true;
    app.status = ViewerAppStatus::NeedsReconnection;
    assert!(app.begin_reconnection());
    assert_eq!(app.status, ViewerAppStatus::Reconnecting);
    assert_eq!(app.state, held_a());
    assert!(app.is_draggable && !app.is_dragged);
    assert!(!app.begin_reconnection());
    assert_eq!(app.on_message(Some(ControllerMessage::State(held_a()))), AppStep::Carry);
    assert_eq!(app.status, ViewerAppStatus::Running);
}

#[test]
fn window_follows_the_pointer_only_while_draggable() {
    let mut app = ViewerApp::default();
    app.on_left_button(true);
    assert!(!app.is_dragged);
    app.on_modifiers(true);
    assert!(app.is_draggable && !app.is_dragged);
    app.on_left_button(true);
    assert!(app.is_dragged);
    app.on_modifiers(true);
    assert!(app.is_draggable && app.is_dragged);
    app.on_left_button(false);
    assert!(!app.is_dragged);
    app.on_left_button(true);
    app.on_modifiers(false);
    assert!(!app.is_draggable && !app.is_dragged);
}

#[test]
fn logger_is_set_up_once() {
    let mut logger = Logger::new();
    assert!(!logger.has_init());
    assert!(logger.init());
    assert!(logger.has_init());
    assert!(!logger.init());
    assert!(logger.has_init());
}

#[test]
fn error_messages() {
    assert_eq!(
        ViewerError::ControllerNotFound.message(),
        "A B0XX could not be found on your system. Are you sure it's connected through the USB port?"
    );
    assert_eq!(ViewerError::IoError(IoErrorKind::TimedOut).message(), "IoError: timed out");
    assert_eq!(ViewerError::IoError(IoErrorKind::BrokenPipe).message(), "IoError: broken pipe");
    let port = SerialPortError {
        kind: SerialPortErrorKind::Io(IoErrorKind::NotFound),
        description: "No such device".to_string(),
    };
    assert_eq!(ViewerError::SerialPortError(port).message(), "No such device");
    assert_eq!(
        ViewerError::SerialThreadError.message(),
        "Internal serial thread error: receiving on an empty and disconnected channel"
    );
    assert_eq!(
        ViewerError::ConfigError(ViewerOptionConfigError::NotFound).message(),
        "Configuration error: The supplied config path could not be found on the filesystem."
    );
    assert_eq!(
        ViewerError::MalformedSerialReport.message(),
        "The state report transmitted over serial was malformed"
    );
    assert_eq!(ViewerError::Other("boom".to_string()).message(), "boom");
    assert_eq!(ViewerError::UnknownError.message(), "An unknown error occured, sorry");
    assert_eq!(
        ViewerOptionConfigError::HexNumberParseError(IntErrorKind::Empty).message(),
        "Could not parse hex number to its numerical components"
    );
    assert_eq!(
        ViewerOptionConfigError::DeserializationError("bad key".to_string()).message(),
        "TOML Deserialization Error: bad key"
    );
    assert_eq!(
        ViewerOptionConfigError::SerializationError("bad value".to_string()).message(),
        "TOML Serialization Error: bad value"
    );
}

#[test]
fn io_error_kinds_in_words() {
    let table = [
        (IoErrorKind::NotFound, std::io::ErrorKind::NotFound),
        (IoErrorKind::PermissionDenied, std::io::ErrorKind::PermissionDenied),
        (IoErrorKind::ConnectionRefused, std::io::ErrorKind::ConnectionRefused),
        (IoErrorKind::ConnectionReset, std::io::ErrorKind::ConnectionReset),
        (IoErrorKind::ConnectionAborted, std::io::ErrorKind::ConnectionAborted),
        (IoErrorKind::NotConnected, std::io::ErrorKind::NotConnected),
        (IoErrorKind::AddrInUse, std::io::ErrorKind::AddrInUse),
        (IoErrorKind::AddrNotAvailable, std::io::ErrorKind::AddrNotAvailable),
        (IoErrorKind::BrokenPipe, std::io::ErrorKind::BrokenPipe),
        (IoErrorKind::AlreadyExists, std::io::ErrorKind::AlreadyExists),
        (IoErrorKind::WouldBlock, std::io::ErrorKind::WouldBlock),
        (IoErrorKind::InvalidInput, std::io::ErrorKind::InvalidInput),
        (IoErrorKind::InvalidData, std::io::ErrorKind::InvalidData),
        (IoErrorKind::TimedOut, std::io::ErrorKind::TimedOut),
        (IoErrorKind::WriteZero, std::io::ErrorKind::WriteZero),
        (IoErrorKind::Interrupted, std::io::ErrorKind::Interrupted),
        (IoErrorKind::Unsupported, std::io::ErrorKind::Unsupported),
        (IoErrorKind::UnexpectedEof, std::io::ErrorKind::UnexpectedEof),
        (IoErrorKind::OutOfMemory, std::io::ErrorKind::OutOfMemory),
        (IoErrorKind::Other, std::io::ErrorKind::Other),
    ];
    for (kind, std_kind) in table {
        assert_eq!(kind.describe(), std_kind.to_string());
    }
}
