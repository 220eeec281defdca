use quick_copy::controller::{close_ack, closed_event_name, open_ack, open_prepare, Controller};
use quick_copy::errors::EmptyError;
use quick_copy::slot::HandoffSlot;

#[test]
fn open_then_fetch_round_trip() {
    let mut c = Controller::new();
    assert!(!open_prepare(false));
    let _config = c.open_store(String::from("{\"user\":\"a\"}"));
    assert!(open_ack(None).is_ok());
    let fetched = c.fetch_pending();
    assert_eq!(fetched.unwrap(), "{\"user\":\"a\"}");
    let again = c.fetch_pending();
    assert!(matches!(again, Err(EmptyError)));
}

#[test]
fn fetch_with_no_prior_open_fails() {
    let mut c = Controller::new();
    assert!(matches!(c.fetch_pending(), Err(EmptyError)));
}

#[test]
fn reopen_without_fetch_is_last_write_wins() {
    let mut c = Controller::new();
    let _ = c.open_store(String::from("X"));
    assert!(open_prepare(true));
    let _ = c.open_store(String::from("Y"));
    let fetched = c.fetch_pending();
    assert_eq!(fetched.unwrap(), "Y");
}

#[test]
fn close_discards_pending_payload() {
    let mut c = Controller::new();
    let _ = c.open_store(String::from("secret"));
    let close_window = c.close_clear(true);
    assert!(close_window);
    let outcome = close_ack(true, None);
    assert!(outcome.result.is_ok());
    assert!(outcome.broadcast);
    assert!(matches!(c.fetch_pending(), Err(EmptyError)));
}

#[test]
fn close_without_window_succeeds_and_broadcasts() {
    let mut c = Controller::new();
    let close_window = c.close_clear(false);
    assert!(!close_window);
    let outcome = close_ack(false, None);
    assert!(outcome.result.is_ok());
    assert!(outcome.broadcast);
}

#[test]
fn close_destroy_failure_is_window_error_without_broadcast() {
    let mut c = Controller::new();
    let _ = c.close_clear(true);
    let outcome = close_ack(true, Some(String::from("already closing")));
    match outcome.result {
        Err(e) => assert_eq!(e.message, "already closing"),
        Ok(()) => panic!("destruction failure must fail the close"),
    }
    assert!(!outcome.broadcast);
}

#[test]
fn open_creation_failure_is_window_error() {
    match open_ack(Some(String::from("host refused"))) {
        Err(e) => assert_eq!(e.message, "host refused"),
        Ok(()) => panic!("creation failure must fail the open"),
    }
}

#[test]
fn open_creation_failure_keeps_payload_pending() {
    let mut c = Controller::new();
    let _ = c.open_store(String::from("P"));
    assert!(open_ack(Some(String::from("boom"))).is_err());
    assert_eq!(c.fetch_pending().unwrap(), "P");
}

#[test]
fn window_config_has_fixed_attributes() {
    let mut c = Controller::new();
    let config = c.open_store(String::from("payload"));
    assert_eq!(config.label, "quick-copy");
    assert_eq!(config.view, "quick-copy.html");
    assert_eq!(config.title, "Quick Copy");
    assert_eq!(config.width, 320);
    assert_eq!(config.height, 400);
    assert!(!config.resizable);
    assert!(!config.decorations);
    assert!(config.always_on_top);
    assert!(config.skip_taskbar);
}

#[test]
fn closure_event_name_is_fixed() {
    assert_eq!(closed_event_name(), "quick-copy-closed");
}

#[test]
fn empty_error_message_is_fixed() {
    assert_eq!(EmptyError.message(), "No credential data available");
}

#[test]
fn slot_set_then_take_round_trip() {
    let mut s = HandoffSlot::new();
    s.set(String::from("v"));
    assert_eq!(s.take().unwrap(), "v");
    assert!(matches!(s.take(), Err(EmptyError)));
}

#[test]
fn slot_set_overwrites() {
    let mut s = HandoffSlot::new();
    s.set(String::from("first"));
    s.set(String::from("second"));
    assert_eq!(s.take().unwrap(), "second");
}

#[test]
fn slot_clear_is_idempotent_and_discards() {
    let mut s = HandoffSlot::new();
    s.set(String::from("v"));
    s.clear();
    s.clear();
    assert!(matches!(s.take(), Err(EmptyError)));
}
