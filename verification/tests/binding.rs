use lumiapp::check;
use lumiapp::notify;
use lumiapp::LumiError;
use lumiapp::LUMI_ERR_INVALID;
use lumiapp::LUMI_ERR_IO;
use lumiapp::LUMI_ERR_NOMEM;
use lumiapp::LUMI_ERR_NOT_FOUND;
use lumiapp::LUMI_OK;

#[test]
fn test_error_conversion() {
    let ok: Result<(), LumiError> = check(LUMI_OK);
    assert!(ok.is_ok());
    let err: Result<(), LumiError> = check(LUMI_ERR_NOMEM);
    assert!(matches!(err, Err(LumiError::OutOfMemory)));
}

#[test]
fn mapping_of_every_defined_code() {
    assert!(matches!(check(0), Ok(())));
    assert!(matches!(check(-1), Err(LumiError::OutOfMemory)));
    assert!(matches!(check(-2), Err(LumiError::InvalidArgument)));
    assert!(matches!(check(-3), Err(LumiError::NotFound)));
    assert!(matches!(check(-4), Err(LumiError::IoError)));
}

#[test]
fn mapping_of_unknown_codes_keeps_the_raw_value() {
    assert!(matches!(check(-5), Err(LumiError::Unknown(-5))));
    assert!(matches!(check(1), Err(LumiError::Unknown(1))));
    assert!(matches!(check(i32::MAX), Err(LumiError::Unknown(i32::MAX))));
    assert!(matches!(check(i32::MIN), Err(LumiError::Unknown(i32::MIN))));
}

#[test]
fn notify_carries_title_and_body_unchanged() {
    let q = notify("greeting", "hello there").unwrap();
    assert_eq!(q.title, "greeting");
    assert_eq!(q.body, "hello there");
}

#[test]
fn notify_rejects_interior_nul_locally() {
    assert!(matches!(
        notify("ti\0tle", "body"),
        Err(LumiError::InvalidArgument)
    ));
    assert!(matches!(
        notify("title", "bo\0dy"),
        Err(LumiError::InvalidArgument)
    ));
    assert!(matches!(notify("\0", "\0"), Err(LumiError::InvalidArgument)));
}

#[test]
fn notify_accepts_empty_strings() {
    let q = notify("", "").unwrap();
    assert_eq!(q.title, "");
    assert_eq!(q.body, "");
}
