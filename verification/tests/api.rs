use aria2c_gui_rs::api::{open_status, removal_command, removal_status, ApiStatus, FileForm};

#[test]
fn removal_defaults_to_rm() {
    let form = FileForm { file: "/d/a.zip".to_string(), cmd: None };
    let c = removal_command(&form);
    assert_eq!(c.program, "rm");
    assert_eq!(c.args, vec!["/d/a.zip".to_string()]);
}

#[test]
fn removal_uses_the_given_command() {
    let form = FileForm { file: "x y".to_string(), cmd: Some("trash".to_string()) };
    let c = removal_command(&form);
    assert_eq!(c.program, "trash");
    assert_eq!(c.args, vec!["x y".to_string()]);
}

#[test]
fn successful_removal_is_ok() {
    assert_eq!(removal_status(true, b"ignored"), ApiStatus::Succeeded);
    assert_eq!(removal_status(true, b"ignored").status_text(), "ok");
}

#[test]
fn failed_removal_reports_stderr() {
    let s = removal_status(false, b"rm: x: No such file\n");
    assert_eq!(
        s,
        ApiStatus::Failed { error: "\"stderr: rm: x: No such file\\n\"".to_string() }
    );
    assert_eq!(s.status_text(), "failed");
}

#[test]
fn invalid_utf8_is_replaced() {
    let s = removal_status(false, &[b'a', 0xff]);
    assert_eq!(s, ApiStatus::Failed { error: "\"stderr: a\u{fffd}\"".to_string() });
}

#[test]
fn open_reports_the_error() {
    assert_eq!(open_status(None), ApiStatus::Succeeded);
    assert_eq!(
        open_status(Some("Os { code: 2 }".to_string())),
        ApiStatus::Failed { error: "Os { code: 2 }".to_string() }
    );
}

#[test]
fn quotes_and_tabs_are_escaped() {
    let s = removal_status(false, b"it's \"x\"\t\\");
    assert_eq!(s, ApiStatus::Failed { error: "\"stderr: it's \\\"x\\\"\\t\\\\\"".to_string() });
}
