use graalvm_arrow_stream::diagnostics::{error_buffer, error_text, terminated_prefix, ERROR_BUFFER_LEN};
use graalvm_arrow_stream::error::StreamError;
use graalvm_arrow_stream::lifecycle::{
    creation_outcome, should_tear_down, TeardownGuard,
};
use graalvm_arrow_stream::naming::library_file_name;
use graalvm_arrow_stream::session::{encode_path, OpenAction, OpenEvent, OpenPhase, OpenSession};
use graalvm_arrow_stream::symbols::{
    required_symbol, resolution_outcome, ATTACH_THREAD, CREATE_CONTEXT, DETACH_THREAD, LAST_ERROR,
    PRODUCE_STREAM, SYMBOL_COUNT, TEAR_DOWN_CONTEXT,
};

fn buffer_with(message: &[u8]) -> Vec<u8> {
    let mut buf = error_buffer();
    buf[..message.len()].copy_from_slice(message);
    buf
}

#[test]
fn error_buffer_is_zeroed() {
    let buf = error_buffer();
    assert_eq!(buf.len(), ERROR_BUFFER_LEN);
    assert_eq!(ERROR_BUFFER_LEN, 1024);
    assert!(buf.iter().all(|b| *b == 0));
}

#[test]
fn error_text_stops_at_first_zero() {
    assert_eq!(error_text(b"boom\0junk"), "boom");
    assert_eq!(terminated_prefix(b"ab\0cd\0"), b"ab".to_vec());
}

#[test]
fn error_text_without_zero_takes_whole_buffer() {
    assert_eq!(error_text(b"truncated"), "truncated");
}

#[test]
fn error_text_of_empty_buffer_is_empty() {
    assert_eq!(error_text(b""), "");
    assert_eq!(error_text(&error_buffer()), "");
}

#[test]
fn error_text_replaces_invalid_utf8() {
    assert_eq!(error_text(b"a\xffb\0"), "a\u{FFFD}b");
}

#[test]
fn error_text_cuts_long_message_at_buffer_length() {
    let long = vec![b'x'; ERROR_BUFFER_LEN + 10];
    let buf: Vec<u8> = long[..ERROR_BUFFER_LEN].to_vec();
    assert_eq!(error_text(&buf).len(), ERROR_BUFFER_LEN);
}

#[test]
fn encode_path_appends_terminator() {
    assert_eq!(encode_path("path").unwrap(), b"path\0".to_vec());
    assert_eq!(encode_path("").unwrap(), vec![0u8]);
}

#[test]
fn encode_path_rejects_zero_byte() {
    assert_eq!(encode_path("pa\0th"), Err(StreamError::InvalidPath));
}

#[test]
fn open_succeeds_and_detaches() {
    let (s, a) = OpenSession::begin("path");
    assert_eq!(a, OpenAction::Attach);
    let (s, a) = s.step(OpenEvent::Attached { code: 0, thread: 42 });
    assert_eq!(a, OpenAction::Produce { thread: 42, path: b"path\0".to_vec() });
    let (s, a) = s.step(OpenEvent::Produced { code: 0 });
    assert_eq!(a, OpenAction::Detach { thread: 42 });
    let (s, a) = s.step(OpenEvent::Detached { code: 0 });
    assert_eq!(a, OpenAction::Finish(Ok(())));
    assert_eq!(s.phase, OpenPhase::Finished);
}

#[test]
fn open_fails_when_attach_fails() {
    let (s, _) = OpenSession::begin("path");
    let (s, a) = s.step(OpenEvent::Attached { code: 1, thread: 0 });
    assert_eq!(a, OpenAction::Finish(Err(StreamError::ThreadAttach)));
    assert_eq!(s.phase, OpenPhase::Finished);
}

#[test]
fn open_rejected_path_reports_host_text() {
    let message = "java.lang.RuntimeException: you've made mock reader panic!";
    let (s, _) = OpenSession::begin("panic");
    let (s, a) = s.step(OpenEvent::Attached { code: 0, thread: 5 });
    assert_eq!(a, OpenAction::Produce { thread: 5, path: b"panic\0".to_vec() });
    let (s, a) = s.step(OpenEvent::Produced { code: -1 });
    assert_eq!(a, OpenAction::FetchError { thread: 5 });
    let (s, a) = s.step(OpenEvent::ErrorFetched { buffer: buffer_with(message.as_bytes()) });
    assert_eq!(a, OpenAction::Detach { thread: 5 });
    let (_, a) = s.step(OpenEvent::Detached { code: 0 });
    assert_eq!(a, OpenAction::Finish(Err(StreamError::DataSource(message.to_string()))));
}

#[test]
fn open_detach_failure_does_not_mask_earlier_error() {
    let (s, _) = OpenSession::begin("panic");
    let (s, _) = s.step(OpenEvent::Attached { code: 0, thread: 5 });
    let (s, _) = s.step(OpenEvent::Produced { code: 2 });
    let (s, _) = s.step(OpenEvent::ErrorFetched { buffer: buffer_with(b"bad source") });
    let (_, a) = s.step(OpenEvent::Detached { code: 9 });
    assert_eq!(a, OpenAction::Finish(Err(StreamError::DataSource("bad source".to_string()))));
}

#[test]
fn open_detach_failure_after_success_is_reported() {
    let (s, _) = OpenSession::begin("path");
    let (s, _) = s.step(OpenEvent::Attached { code: 0, thread: 1 });
    let (s, _) = s.step(OpenEvent::Produced { code: 0 });
    let (_, a) = s.step(OpenEvent::Detached { code: 3 });
    assert_eq!(a, OpenAction::Finish(Err(StreamError::ThreadDetach)));
}

#[test]
fn open_invalid_path_still_detaches() {
    let (s, _) = OpenSession::begin("a\0b");
    let (s, a) = s.step(OpenEvent::Attached { code: 0, thread: 8 });
    assert_eq!(a, OpenAction::Detach { thread: 8 });
    let (_, a) = s.step(OpenEvent::Detached { code: 0 });
    assert_eq!(a, OpenAction::Finish(Err(StreamError::InvalidPath)));
}

#[test]
fn consecutive_opens_are_independent() {
    for path in ["path0", "path1"] {
        let (s, _) = OpenSession::begin(path);
        let (s, _) = s.step(OpenEvent::Attached { code: 0, thread: 3 });
        let (s, _) = s.step(OpenEvent::Produced { code: 0 });
        let (_, a) = s.step(OpenEvent::Detached { code: 0 });
        assert_eq!(a, OpenAction::Finish(Ok(())));
    }
}

#[test]
fn session_accepts_only_the_awaited_event() {
    let (s, _) = OpenSession::begin("path");
    assert!(s.accepts(&OpenEvent::Attached { code: 0, thread: 1 }));
    assert!(!s.accepts(&OpenEvent::Produced { code: 0 }));
    assert!(!s.accepts(&OpenEvent::Detached { code: 0 }));
}

#[test]
fn symbol_names_in_order() {
    assert_eq!(SYMBOL_COUNT, 6);
    assert_eq!(required_symbol(CREATE_CONTEXT), "graal_create_isolate");
    assert_eq!(required_symbol(TEAR_DOWN_CONTEXT), "graal_tear_down_isolate");
    assert_eq!(required_symbol(DETACH_THREAD), "graal_detach_thread");
    assert_eq!(required_symbol(ATTACH_THREAD), "graal_attach_thread");
    assert_eq!(required_symbol(PRODUCE_STREAM), "gas_reader_stream");
    assert_eq!(required_symbol(LAST_ERROR), "gas_last_error");
}

#[test]
fn resolution_names_first_missing_symbol() {
    assert_eq!(resolution_outcome(&[true; 6]), Ok(()));
    assert_eq!(
        resolution_outcome(&[true, true, false, true, false, true]),
        Err(StreamError::SymbolResolution("graal_detach_thread".to_string()))
    );
    assert_eq!(
        resolution_outcome(&[false; 6]),
        Err(StreamError::SymbolResolution("graal_create_isolate".to_string()))
    );
}

#[test]
fn creation_status_maps_to_outcome() {
    assert_eq!(creation_outcome(0), Ok(()));
    assert_eq!(creation_outcome(-3), Err(StreamError::ContextCreation));
}

#[test]
fn teardown_runs_once() {
    let mut g = TeardownGuard::new();
    assert!(g.begin());
    assert!(!g.begin());
    assert!(g.done);
}

#[test]
fn teardown_skipped_when_attach_fails() {
    assert!(should_tear_down(0));
    assert!(!should_tear_down(1));
}

#[test]
fn library_file_name_wraps_name() {
    let file = library_file_name("gas");
    assert!(file.contains("gas"));
    assert!(file.len() > "gas".len());
}
