use trsfer::stream_handler::{Action, Event, Exit, Phase, StreamHandler};
use trsfer::{Error, FileMetadata, IoError, IoErrorKind, Message, Response, TrsferSetting};

fn io_error(kind: IoErrorKind) -> Error {
    Error::IOError(IoError::new(kind, String::from("stream failed")))
}

/// Drives a handler up to the point where it asks whether the file is there.
fn probing(output: &str, path: &str, is_dry_run: bool) -> (StreamHandler, String) {
    let mut handler = StreamHandler::new(String::from(output));
    assert!(matches!(handler.step(Event::Begin), Action::Receive));
    let setting = TrsferSetting::new(is_dry_run).serialize().unwrap();
    assert!(matches!(handler.step(Event::Received(setting)), Action::Receive));
    let metadata = FileMetadata::new(String::from(path), 4).serialize().unwrap();
    let save_path = match handler.step(Event::Received(metadata)) {
        Action::Probe(save_path) => save_path,
        _ => panic!("expected a probe"),
    };
    assert_eq!(handler.current_phase(), Phase::Probing);
    (handler, save_path)
}

fn awaiting_content(output: &str, path: &str, is_dry_run: bool) -> StreamHandler {
    let (mut handler, _) = probing(output, path, is_dry_run);
    match handler.step(Event::Probed(false)) {
        Action::Send(bytes) => assert_eq!(bytes, vec![0]),
        _ => panic!("expected the reply"),
    }
    assert_eq!(handler.current_phase(), Phase::Inviting);
    assert!(matches!(handler.step(Event::Sent), Action::Receive));
    assert_eq!(handler.current_phase(), Phase::AwaitingContent);
    handler
}

#[test]
fn a_handler_starts_by_reading_the_settings() {
    let mut handler = StreamHandler::new(String::from("out"));
    assert_eq!(handler.current_phase(), Phase::Accepted);
    assert!(handler.accepts(&Event::Begin));
    assert!(!handler.accepts(&Event::Sent));
    assert!(matches!(handler.step(Event::Begin), Action::Receive));
    assert_eq!(handler.current_phase(), Phase::AwaitingSetting);
}

#[test]
fn the_save_path_is_the_output_joined_with_the_path() {
    let (_, save_path) = probing("out", "d/b.txt", false);
    assert_eq!(save_path, "out/d/b.txt");
    let (_, save_path) = probing("/srv/files/", "a.txt", false);
    assert_eq!(save_path, "/srv/files/a.txt");
    let (_, save_path) = probing(".", "root/a.txt", false);
    assert_eq!(save_path, "./root/a.txt");
}

#[test]
fn a_file_that_exists_is_declined_and_no_content_is_read() {
    let (mut handler, _) = probing("out", "a.txt", false);
    match handler.step(Event::Probed(true)) {
        Action::Send(bytes) => assert_eq!(bytes, vec![1]),
        _ => panic!("expected the reply"),
    }
    assert_eq!(handler.current_phase(), Phase::Declining);
    assert!(matches!(handler.step(Event::Sent), Action::Receive));
    assert_eq!(handler.current_phase(), Phase::AwaitingSetting);

    // The next frame is taken as the settings of the next request.
    let setting = TrsferSetting::new(true).serialize().unwrap();
    assert!(matches!(handler.step(Event::Received(setting)), Action::Receive));
    assert_eq!(handler.current_phase(), Phase::AwaitingMetadata);
}

#[test]
fn content_is_saved_and_then_answered() {
    let mut handler = awaiting_content("out", "a.txt", false);
    match handler.step(Event::Received(b"abcd".to_vec())) {
        Action::Persist(save_path, content) => {
            assert_eq!(save_path, "out/a.txt");
            assert_eq!(content.as_slice(), b"abcd");
        }
        _ => panic!("expected the content to be saved"),
    }
    assert_eq!(handler.current_phase(), Phase::Persisting);
    match handler.step(Event::Detached) {
        Action::Send(bytes) => {
            assert_eq!(Response::deserialize(&bytes).unwrap().save_path, "out/a.txt")
        }
        _ => panic!("expected the response"),
    }
    assert_eq!(handler.current_phase(), Phase::Responding);
    assert!(matches!(handler.step(Event::Sent), Action::Receive));
    assert_eq!(handler.current_phase(), Phase::AwaitingSetting);
}

#[test]
fn a_dry_run_saves_nothing_and_still_answers() {
    let mut handler = awaiting_content("out", "d/b.txt", true);
    match handler.step(Event::Received(b"abcd".to_vec())) {
        Action::Send(bytes) => {
            assert_eq!(bytes, Response::new(String::from("out/d/b.txt")).serialize().unwrap())
        }
        _ => panic!("expected the response at once"),
    }
    assert_eq!(handler.current_phase(), Phase::Responding);
}

#[test]
fn an_empty_file_is_content_too() {
    let mut handler = awaiting_content("out", "d/b.txt", false);
    match handler.step(Event::Received(Vec::new())) {
        Action::Persist(save_path, content) => {
            assert_eq!(save_path, "out/d/b.txt");
            assert_eq!(content.len(), 0);
        }
        _ => panic!("expected the content to be saved"),
    }
}

#[test]
fn the_settings_hold_for_one_request_only() {
    let mut handler = awaiting_content("out", "a.txt", true);
    assert!(matches!(handler.step(Event::Received(vec![1])), Action::Send(_)));
    assert!(matches!(handler.step(Event::Sent), Action::Receive));

    let setting = TrsferSetting::new(false).serialize().unwrap();
    handler.step(Event::Received(setting));
    let metadata = FileMetadata::new(String::from("b.txt"), 1).serialize().unwrap();
    handler.step(Event::Received(metadata));
    handler.step(Event::Probed(false));
    handler.step(Event::Sent);
    match handler.step(Event::Received(vec![9])) {
        Action::Persist(save_path, content) => {
            assert_eq!(save_path, "out/b.txt");
            assert_eq!(content.as_slice(), &[9]);
        }
        _ => panic!("expected the content to be saved"),
    }
}

#[test]
fn a_disconnect_stops_the_handler_without_error() {
    for steps in 0..6 {
        let mut handler = StreamHandler::new(String::from("out"));
        handler.step(Event::Begin);
        let script = [
            Event::Received(TrsferSetting::new(false).serialize().unwrap()),
            Event::Received(FileMetadata::new(String::from("a.txt"), 1).serialize().unwrap()),
            Event::Probed(false),
            Event::Sent,
            Event::Received(vec![1]),
        ];
        for event in script.into_iter().take(steps) {
            assert!(handler.accepts(&event));
            handler.step(event);
        }
        let closed = Event::Failed(io_error(IoErrorKind::UnexpectedEof));
        assert!(handler.accepts(&closed));
        assert!(matches!(handler.step(closed), Action::Stop(Exit::Disconnected)));
        assert_eq!(handler.current_phase(), Phase::Stopped);
        assert!(!handler.accepts(&Event::Begin));
        assert!(!handler.accepts(&Event::Failed(io_error(IoErrorKind::Other))));
    }
}

#[test]
fn another_failure_stops_the_handler_with_it() {
    let mut handler = StreamHandler::new(String::from("out"));
    handler.step(Event::Begin);
    match handler.step(Event::Failed(io_error(IoErrorKind::Other))) {
        Action::Stop(Exit::Failed(Error::IOError(e))) => {
            assert_eq!(e.kind, IoErrorKind::Other);
            assert_eq!(e.message, "stream failed");
        }
        _ => panic!("expected the failure to be reported"),
    }
    assert_eq!(handler.current_phase(), Phase::Stopped);
}

#[test]
fn malformed_settings_stop_the_handler() {
    let mut handler = StreamHandler::new(String::from("out"));
    handler.step(Event::Begin);
    match handler.step(Event::Received(vec![5])) {
        Action::Stop(Exit::Failed(Error::BincodeError(_))) => {}
        _ => panic!("expected a decoding error"),
    }
    assert_eq!(handler.current_phase(), Phase::Stopped);
}

#[test]
fn a_malformed_description_stops_the_handler() {
    let mut handler = StreamHandler::new(String::from("out"));
    handler.step(Event::Begin);
    handler.step(Event::Received(vec![0]));
    match handler.step(Event::Received(vec![1, 2, 3])) {
        Action::Stop(Exit::Failed(Error::BincodeError(_))) => {}
        _ => panic!("expected a decoding error"),
    }
}

#[test]
fn each_phase_accepts_only_its_answer() {
    let (handler, _) = probing("out", "a.txt", false);
    assert!(handler.accepts(&Event::Probed(true)));
    assert!(handler.accepts(&Event::Failed(io_error(IoErrorKind::Other))));
    assert!(!handler.accepts(&Event::Sent));
    assert!(!handler.accepts(&Event::Received(Vec::new())));
    assert!(!handler.accepts(&Event::Detached));
}
