use aria2c_gui_rs::aria2c::{
    completion_notification, daemon_args, daemon_program, download_dir_name, rpc_url,
    supervisor_stops, tell_stopped_request, CompletionWatcher, Notification, Observation, Task,
    TaskFile,
};

fn task(gid: &str, paths: &[&str]) -> Task {
    Task {
        gid: gid.to_string(),
        files: paths.iter().map(|p| TaskFile { path: p.to_string() }).collect(),
    }
}

fn note(title: &str, body: &str) -> Notification {
    Notification { title: title.to_string(), body: body.to_string() }
}

#[test]
fn daemon_command_line() {
    assert_eq!(daemon_program(), "aria2c");
    assert_eq!(download_dir_name(), "Downloads");
    assert_eq!(
        daemon_args(6800),
        vec!["--enable-rpc", "--rpc-listen-port=6800", "--rpc-allow-origin-all"]
    );
    assert_eq!(rpc_url(6801), "http://127.0.0.1:6801/jsonrpc");
}

#[test]
fn the_request_lists_stopped_downloads() {
    let body = tell_stopped_request();
    let value: serde_json::Value = serde_json::from_str(&body).unwrap();
    assert_eq!(value["jsonrpc"], "2.0");
    assert_eq!(value["method"], "aria2.tellStopped");
    assert_eq!(value["id"], "aria2c-gui-rs");
    assert_eq!(value["params"][0], -1);
    assert_eq!(value["params"][1], 1000);
    assert_eq!(value["params"][2][0], "gid");
    assert_eq!(value["params"][2][1], "files");
}

#[test]
fn only_the_stop_signal_stops() {
    assert!(supervisor_stops(Some(-1)));
    assert!(!supervisor_stops(Some(0)));
    assert!(!supervisor_stops(Some(1)));
    assert!(!supervisor_stops(None));
}

#[test]
fn notification_names_the_file() {
    assert_eq!(
        completion_notification("/home/u/Downloads/a.iso", "a.iso"),
        note("下载完成: a.iso", "/home/u/Downloads/a.iso")
    );
}

#[test]
fn first_list_announces_downloads_with_files() {
    let mut w = CompletionWatcher::new();
    assert_eq!(w.seen(), 0);
    let tasks = vec![task("1", &["/d/a.zip", "/d/b"]), task("2", &[]), task("3", &["/d/dir/"])];
    let out = w.observe(&tasks);
    assert_eq!(out, vec![note("下载完成: a.zip", "/d/a.zip"), note("下载完成: dir", "/d/dir/")]);
    assert_eq!(w.seen(), 3);
}

#[test]
fn second_look_announces_only_new_downloads() {
    let mut w = CompletionWatcher::new();
    let first = vec![task("1", &["/d/a"])];
    assert_eq!(w.observe(&first).len(), 1);
    assert_eq!(w.observe(&first), vec![]);
    let second = vec![task("2", &["/d/b"]), task("1", &["/d/a"])];
    assert_eq!(w.observe(&second), vec![note("下载完成: b", "/d/b")]);
    assert_eq!(w.seen(), 2);
}

#[test]
fn shorter_list_resets_the_count() {
    let mut w = CompletionWatcher::new();
    w.observe(&vec![task("1", &["/d/a"]), task("2", &["/d/b"])]);
    assert_eq!(w.observe(&vec![task("2", &["/d/b"])]), vec![]);
    assert_eq!(w.seen(), 1);
    let out = w.observe(&vec![task("3", &["c"]), task("2", &["/d/b"])]);
    assert_eq!(out, vec![note("下载完成: c", "c")]);
}

fn observation(announced: Vec<Notification>, nameless: Option<usize>) -> Observation {
    Observation { announced, nameless }
}

#[test]
fn nameless_paths_stop_the_announcements() {
    let mut w = CompletionWatcher::new();
    assert_eq!(w.try_observe(&vec![task("1", &["/d/.."])]), observation(vec![], Some(0)));
    assert_eq!(w.seen(), 0);
    assert_eq!(w.try_observe(&vec![task("1", &["/"])]), observation(vec![], Some(0)));
    assert_eq!(w.seen(), 0);
    let out = w.try_observe(&vec![task("1", &["/d/x.txt"])]);
    assert_eq!(out, observation(vec![note("下载完成: x.txt", "/d/x.txt")], None));
    assert_eq!(w.seen(), 1);
    let list = vec![task("3", &["/d/y"]), task("2", &["/d/.."]), task("4", &["/d/z"]), task("1", &["/d/x.txt"])];
    assert_eq!(w.try_observe(&list), observation(vec![note("下载完成: y", "/d/y")], Some(1)));
    assert_eq!(w.seen(), 1);
}

#[test]
fn names_are_the_last_component() {
    let mut w = CompletionWatcher::new();
    let out = w.observe(&vec![task("1", &["a/b/c.d"]), task("2", &["plain"]), task("3", &["/x/./"])]);
    assert_eq!(
        out,
        vec![note("下载完成: c.d", "a/b/c.d"), note("下载完成: plain", "plain"), note("下载完成: x", "/x/./")]
    );
}
