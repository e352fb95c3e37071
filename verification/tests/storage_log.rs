use lumiapp::log;
use lumiapp::storage::Store;
use lumiapp::LumiError;
use lumiapp::LUMI_LOG_ERROR;
use lumiapp::LUMI_LOG_INFO;

#[test]
fn get_on_a_key_never_set_is_absent() {
    let store = Store::new();
    assert_eq!(store.get("missing"), None);
}

#[test]
fn set_then_get_round_trips() {
    let mut store = Store::new();
    assert!(store.set("k", "v").is_ok());
    assert_eq!(store.get("k"), Some(String::from("v")));
}

#[test]
fn set_overwrites_an_earlier_value() {
    let mut store = Store::new();
    assert!(store.set("k", "first").is_ok());
    assert!(store.set("k", "second").is_ok());
    assert_eq!(store.get("k"), Some(String::from("second")));
    assert_eq!(store.get("other"), None);
}

#[test]
fn remove_then_get_is_absent() {
    let mut store = Store::new();
    assert!(store.set("k", "v").is_ok());
    assert!(store.remove("k").is_ok());
    assert_eq!(store.get("k"), None);
}

#[test]
fn remove_of_an_absent_key_is_ok() {
    let mut store = Store::new();
    assert!(store.remove("never-set").is_ok());
}

#[test]
fn remove_keeps_the_other_entries() {
    let mut store = Store::new();
    assert!(store.set("a", "1").is_ok());
    assert!(store.set("b", "2").is_ok());
    assert!(store.remove("a").is_ok());
    assert_eq!(store.get("a"), None);
    assert_eq!(store.get("b"), Some(String::from("2")));
}

#[test]
fn clear_then_get_is_absent_for_every_previous_key() {
    let mut store = Store::new();
    assert!(store.set("a", "1").is_ok());
    assert!(store.set("b", "2").is_ok());
    assert!(store.clear().is_ok());
    assert_eq!(store.get("a"), None);
    assert_eq!(store.get("b"), None);
}

#[test]
fn empty_key_and_value_round_trip() {
    let mut store = Store::new();
    assert!(store.set("", "").is_ok());
    assert_eq!(store.get(""), Some(String::new()));
}

#[test]
fn interior_nul_fails_locally_and_changes_nothing() {
    let mut store = Store::new();
    assert!(store.set("k", "v").is_ok());
    assert!(matches!(
        store.set("ke\0y", "value"),
        Err(LumiError::InvalidArgument)
    ));
    assert!(matches!(
        store.set("key", "va\0lue"),
        Err(LumiError::InvalidArgument)
    ));
    assert!(matches!(
        store.remove("ke\0y"),
        Err(LumiError::InvalidArgument)
    ));
    assert_eq!(store.get("ke\0y"), None);
    // the one entry written before the rejected calls is untouched
    assert_eq!(store.get("k"), Some(String::from("v")));
    assert_eq!(store.get("key"), None);
}

#[test]
fn log_info_always_uses_the_literal_format() {
    let r = log::info("tag", "100%s of %n messages");
    assert_eq!(r.level, LUMI_LOG_INFO);
    assert_eq!(r.fmt, "%s");
    assert_eq!(r.tag, "tag");
    assert_eq!(r.message, "100%s of %n messages");
}

#[test]
fn log_error_always_uses_the_literal_format() {
    let r = log::error("tag", "%n%n%n");
    assert_eq!(r.level, LUMI_LOG_ERROR);
    assert_eq!(r.fmt, "%s");
    assert_eq!(r.message, "%n%n%n");
}

#[test]
fn log_degrades_nul_text_to_empty_instead_of_failing() {
    let r = log::info("ta\0g", "mes\0sage");
    assert_eq!(r.level, LUMI_LOG_INFO);
    assert_eq!(r.fmt, "%s");
    assert_eq!(r.tag, "");
    assert_eq!(r.message, "");
    let e = log::error("ok-tag", "bad\0message");
    assert_eq!(e.tag, "ok-tag");
    assert_eq!(e.message, "");
}
