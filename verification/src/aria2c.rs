//! Running the aria2c download daemon: its command line, the RPC request
//! that lists finished downloads, and the bookkeeping that turns each newly
//! finished download into exactly one desktop notification.

use vstd::prelude::*;
use crate::text::{
    decimal, decimal_string, decimal_value, law_decimal_reads_back, law_framed_decimal_injective,
};

verus! {

/// A file of a download, as the daemon reports it.
#[derive(Clone, Debug, PartialEq)]
pub struct TaskFile {
    pub path: String,
}

/// A download, as the daemon reports it.
#[derive(Clone, Debug, PartialEq)]
pub struct Task {
    pub gid: String,
    pub files: Vec<TaskFile>,
}

/// The daemon's answer to the request for stopped downloads.
#[derive(Clone, Debug, PartialEq)]
pub struct RpcResponse {
    pub result: Vec<Task>,
}

/// A desktop notification.
#[derive(Clone, Debug, PartialEq)]
pub struct Notification {
    pub title: String,
    pub body: String,
}

/// The program that is started.
pub fn daemon_program() -> (program: String)
    ensures
        program@ == "aria2c"@,
{
    String::from_str("aria2c")
}

/// The directory, under the home directory, that downloads are saved in.
pub fn download_dir_name() -> (name: String)
    ensures
        name@ == "Downloads"@,
{
    String::from_str("Downloads")
}

/// The daemon's arguments: RPC enabled on `port`, open to any origin.
pub open spec fn daemon_arguments(port: u16) -> Seq<Seq<char>> {
    seq!["--enable-rpc"@, "--rpc-listen-port="@ + decimal(port as nat), "--rpc-allow-origin-all"@]
}

/// The string views of a list of strings.
pub open spec fn string_views(strings: Seq<String>) -> Seq<Seq<char>> {
    strings.map_values(|s: String| s@)
}

/// The arguments that start the daemon with its RPC interface on `port`.
pub fn daemon_args(port: u16) -> (args: Vec<String>)
    ensures
        string_views(args@) == daemon_arguments(port),
        args@.len() == 3,
        args@[0]@ == "--enable-rpc"@,
        args@[1]@ == "--rpc-listen-port="@ + decimal(port as nat),
        args@[2]@ == "--rpc-allow-origin-all"@,
{
    let mut args: Vec<String> = Vec::new();
    args.push(String::from_str("--enable-rpc"));
    let mut listen = String::from_str("--rpc-listen-port=");
    let digits = decimal_string(port);
    listen.append(digits.as_str());
    args.push(listen);
    args.push(String::from_str("--rpc-allow-origin-all"));
    assert(string_views(args@) =~= daemon_arguments(port));
    args
}

/// The daemon listens on the port it is given: the digits after
/// `--rpc-listen-port=` read back as the port, so distinct ports give
/// distinct command lines.
pub proof fn law_daemon_listens_on_given_port(port: u16, other: u16)
    ensures
        daemon_arguments(port).len() == 3,
        daemon_arguments(port)[1].subrange(0, 18) == "--rpc-listen-port="@,
        decimal_value(daemon_arguments(port)[1].subrange(18, daemon_arguments(port)[1].len() as int))
            == port,
        daemon_arguments(port) == daemon_arguments(other) ==> port == other,
{
    reveal_strlit("--rpc-listen-port=");
    let arg = daemon_arguments(port)[1];
    assert(arg == "--rpc-listen-port="@ + decimal(port as nat));
    assert(arg.subrange(0, 18) =~= "--rpc-listen-port="@);
    assert(arg.subrange(18, arg.len() as int) =~= decimal(port as nat));
    law_decimal_reads_back(port as nat);
    if daemon_arguments(port) == daemon_arguments(other) {
        assert(daemon_arguments(port)[1] == daemon_arguments(other)[1]);
        law_framed_decimal_injective("--rpc-listen-port="@, Seq::<char>::empty(), port as nat, other as nat);
        assert("--rpc-listen-port="@ + decimal(port as nat) + Seq::<char>::empty() =~= arg);
        assert("--rpc-listen-port="@ + decimal(other as nat) + Seq::<char>::empty()
            =~= daemon_arguments(other)[1]);
    }
}

/// The address of the daemon's JSON-RPC interface.
pub open spec fn rpc_endpoint(port: u16) -> Seq<char> {
    "http://127.0.0.1:"@ + decimal(port as nat) + "/jsonrpc"@
}

/// The URL that the RPC requests are posted to.
pub fn rpc_url(port: u16) -> (url: String)
    ensures
        url@ == rpc_endpoint(port),
        url@ == "http://127.0.0.1:"@ + decimal(port as nat) + "/jsonrpc"@,
{
    let mut url = String::from_str("http://127.0.0.1:");
    let digits = decimal_string(port);
    url.append(digits.as_str());
    url.append("/jsonrpc");
    url
}

/// Requests go to the port they are made for: distinct ports give distinct
/// RPC addresses.
pub proof fn law_rpc_endpoint_names_port(port: u16, other: u16)
    ensures
        rpc_endpoint(port) == rpc_endpoint(other) ==> port == other,
{
    law_framed_decimal_injective("http://127.0.0.1:"@, "/jsonrpc"@, port as nat, other as nat);
}

/// The body of the request that lists up to a thousand stopped downloads,
/// newest first, with their id and files.
pub open spec fn tell_stopped_body() -> Seq<char> {
    "{\n                \"jsonrpc\":\"2.0\",\n                \"method\":\"aria2.tellStopped\",\n                \"id\":\"aria2c-gui-rs\",\n                \"params\":[\n                    -1,\n                    1000,\n                    [\n                        \"gid\",\n                        \"files\"\n                    ]\n                ]\n            }"@
}

/// The JSON-RPC request for the stopped downloads.
pub fn tell_stopped_request() -> (body: String)
    ensures
        body@ == tell_stopped_body(),
{
    String::from_str(
        "{\n                \"jsonrpc\":\"2.0\",\n                \"method\":\"aria2.tellStopped\",\n                \"id\":\"aria2c-gui-rs\",\n                \"params\":[\n                    -1,\n                    1000,\n                    [\n                        \"gid\",\n                        \"files\"\n                    ]\n                ]\n            }",
    )
}

/// The seconds between two requests.
pub const POLL_INTERVAL_SECS: u64 = 7;

/// The message on the control channel that stops the daemon.
pub const STOP_SIGNAL: i8 = -1;

/// What the daemon's supervisor does with a message of its control channel
/// (`None` when the channel could not be read): only the stop signal makes
/// it kill the daemon and finish; anything else is ignored.
pub fn supervisor_stops(message: Option<i8>) -> (stop: bool)
    ensures
        stop <==> message == Some(STOP_SIGNAL),
{
    match message {
        Some(m) => m == STOP_SIGNAL,
        None => false,
    }
}

/// The last component of a path, as `std::path::Path::file_name` finds it.
pub uninterp spec fn path_file_name(path: Seq<char>) -> Option<Seq<char>>;

/// Whether a path ends in the component `..`.
pub open spec fn ends_in_parent(path: Seq<char>) -> bool {
    path == ".."@ || (path.len() >= 3 && path.subrange(path.len() - 3, path.len() as int)
        == "/.."@)
}

/// What follows the last slash of a path (the whole path when it has none).
pub open spec fn last_segment(path: Seq<char>) -> Seq<char>
    decreases path.len(),
{
    if path.len() == 0 || path.last() == '/' {
        Seq::<char>::empty()
    } else {
        last_segment(path.drop_last()).push(path.last())
    }
}

/// A path that ends in an ordinary component: what follows its last slash
/// is not empty, `.` or `..`.
pub open spec fn ends_in_name(path: Seq<char>) -> bool {
    let seg = last_segment(path);
    seg.len() > 0 && seg != "."@ && seg != ".."@
}

/// Calls `std::path::Path::file_name` and converts the name back to a
/// string. Trusted: the result is the name `path_file_name` gives the path;
/// as the documentation says, it is the final component, so a path that
/// ends in an ordinary component has that component as its name, and there
/// is none when the path ends in `..`. The conversion loses nothing, the
/// path being valid UTF-8. (For paths ending in a slash or in `.`, the
/// component the name is taken from is left unsaid.)
#[verifier::external_body]
fn file_name_of(path: &str) -> (name: Option<String>)
    ensures
        name matches Some(n) ==> path_file_name(path@) == Some(n@),
        name is None ==> path_file_name(path@) is None,
        ends_in_parent(path@) ==> name is None,
        ends_in_name(path@) ==> name is Some,
        name matches Some(n) ==> (ends_in_name(path@) ==> n@ == last_segment(path@)),
{
    std::path::Path::new(path).file_name().map(|n| n.to_string_lossy().into_owned())
}

/// The title of the notification for a finished download: "下载完成: " (download
/// complete) and the file's name.
pub open spec fn completion_title(file_name: Seq<char>) -> Seq<char> {
    "下载完成: "@ + file_name
}

/// The notification for a finished download whose first file has this
/// path and name: the title names the file, the body gives the whole path.
pub open spec fn completion_notice(path: Seq<char>, name: Seq<char>) -> (Seq<char>, Seq<char>) {
    (completion_title(name), path)
}

/// The title and body of a notification.
pub open spec fn notice_of(n: Notification) -> (Seq<char>, Seq<char>) {
    (n.title@, n.body@)
}

/// The notification for a finished download whose first file has a name.
pub fn completion_notification(path: &str, name: &str) -> (n: Notification)
    ensures
        notice_of(n) == completion_notice(path@, name@),
        n.title@ == "下载完成: "@ + name@,
        n.body@ == path@,
{
    let mut title = String::from_str("下载完成: ");
    title.append(name);
    Notification { title, body: String::from_str(path) }
}

/// The path of the first file of a download, if it has any.
pub open spec fn first_file(task: Task) -> Option<Seq<char>> {
    if task.files@.len() > 0 {
        Some(task.files@[0].path@)
    } else {
        None
    }
}

/// A download whose first file, if any, has a name; one whose first file
/// has none cannot be announced, and stops the announcements of its list.
pub open spec fn nameable(task: Task) -> bool {
    first_file(task) matches Some(p) ==> path_file_name(p) is Some
}

/// The notifications for the first `count` downloads of a list, in order:
/// one for each download that has a file, none for the others.
pub open spec fn notices(tasks: Seq<Task>, count: nat) -> Seq<(Seq<char>, Seq<char>)>
    decreases count,
{
    if count == 0 {
        seq![]
    } else {
        let earlier = notices(tasks, (count - 1) as nat);
        match first_file(tasks[count - 1]) {
            Some(p) => earlier.push(completion_notice(p, path_file_name(p).unwrap())),
            None => earlier,
        }
    }
}

/// How many downloads at the front of the list are new, for a watcher that
/// has seen `seen` of them: the list comes newest first, and only a longer
/// list has new entries.
pub open spec fn fresh_count(seen: nat, len: nat) -> nat {
    if len > seen {
        (len - seen) as nat
    } else {
        0
    }
}

/// What a look at the list of stopped downloads yields: the notifications,
/// in order, and the index of the new download that stopped them, if one
/// had a file without a name.
#[derive(Clone, Debug, PartialEq)]
pub struct Observation {
    pub announced: Vec<Notification>,
    pub nameless: Option<usize>,
}

/// Keeps count of the stopped downloads that have been reported, so that
/// each newly stopped download is announced once.
pub struct CompletionWatcher {
    seen: usize,
}

impl View for CompletionWatcher {
    type V = nat;

    /// The number of stopped downloads in the last list that was observed.
    closed spec fn view(&self) -> nat {
        self.seen as nat
    }
}

impl CompletionWatcher {
    /// A watcher that has seen no list yet.
    pub fn new() -> (w: Self)
        ensures
            w@ == 0,
    {
        CompletionWatcher { seen: 0 }
    }

    /// The length of the last list observed.
    pub fn seen(&self) -> (n: usize)
        ensures
            n == self@,
    {
        self.seen
    }

    /// Takes in the list of stopped downloads, newest first: the downloads
    /// beyond the length of the previous list are new, and each of them
    /// that has a file is announced, in the order of the list. The new
    /// length is remembered, also when the list got shorter.
    pub fn observe(&mut self, tasks: &Vec<Task>) -> (announced: Vec<Notification>)
        requires
            forall|i: int|
                0 <= i < fresh_count(old(self)@, tasks@.len()) ==> nameable(#[trigger] tasks@[i]),
        ensures
            final(self)@ == tasks@.len(),
            announced@.map_values(|n: Notification| notice_of(n)) == notices(
                tasks@,
                fresh_count(old(self)@, tasks@.len()),
            ),
    {
        let outcome = self.try_observe(tasks);
        proof {
            if let Some(j) = outcome.nameless {
                assert(nameable(tasks@[j as int]));
            }
        }
        outcome.announced
    }

    /// Like `observe`, for any list: the new downloads are announced in
    /// order up to the first one whose first file has no name (its path
    /// ends in `..`, or is a root); that one's index is reported, and the
    /// watcher then keeps its count.
    pub fn try_observe(&mut self, tasks: &Vec<Task>) -> (outcome: Observation)
        ensures
            outcome.nameless matches Some(j) ==> {
                &&& j < fresh_count(old(self)@, tasks@.len())
                &&& !nameable(tasks@[j as int])
                &&& forall|i: int| 0 <= i < j ==> nameable(#[trigger] tasks@[i])
                &&& outcome.announced@.map_values(|n: Notification| notice_of(n)) == notices(
                    tasks@,
                    j as nat,
                )
                &&& final(self)@ == old(self)@
            },
            outcome.nameless is None ==> {
                &&& forall|i: int|
                    0 <= i < fresh_count(old(self)@, tasks@.len()) ==> nameable(
                        #[trigger] tasks@[i],
                    )
                &&& outcome.announced@.map_values(|n: Notification| notice_of(n)) == notices(
                    tasks@,
                    fresh_count(old(self)@, tasks@.len()),
                )
                &&& final(self)@ == tasks@.len()
            },
    {
        let len = tasks.len();
        let count: usize = if len > self.seen {
            len - self.seen
        } else {
            0
        };
        let mut announced: Vec<Notification> = Vec::new();
        let mut i: usize = 0;
        while i < count
            invariant
                count <= len == tasks@.len(),
                count == fresh_count(self@, tasks@.len()),
                i <= count,
                forall|j: int| 0 <= j < i ==> nameable(#[trigger] tasks@[j]),
                announced@.map_values(|n: Notification| notice_of(n)) == notices(tasks@, i as nat),
            decreases count - i,
        {
            let task = &tasks[i];
            if task.files.len() > 0 {
                let path = task.files[0].path.as_str();
                match file_name_of(path) {
                    Some(n) => {
                        let note = completion_notification(path, n.as_str());
                        announced.push(note);
                    },
                    None => {
                        return Observation { announced, nameless: Some(i) };
                    },
                }
            }
            proof {
                assert(announced@.map_values(|n: Notification| notice_of(n)) =~= notices(
                    tasks@,
                    (i + 1) as nat,
                ));
            }
            i = i + 1;
        }
        self.seen = len;
        Observation { announced, nameless: None }
    }
}

/// A completion title is the prefix "下载完成: " followed by the whole file
/// name, whatever its length.
pub proof fn law_title_is_prefix_and_whole_name(name: Seq<char>)
    ensures
        completion_title(name).len() == 6 + name.len(),
        completion_title(name).subrange(0, 6) == "下载完成: "@,
        completion_title(name).subrange(6, completion_title(name).len() as int) == name,
{
    reveal_strlit("下载完成: ");
    assert(completion_title(name).subrange(0, 6) =~= "下载完成: "@);
    assert(completion_title(name).subrange(6, completion_title(name).len() as int) =~= name);
}

/// Looking at no downloads announces nothing.
pub proof fn law_no_downloads_no_notices(tasks: Seq<Task>)
    ensures
        notices(tasks, 0) == Seq::<(Seq<char>, Seq<char>)>::empty(),
{
}

/// Every download looked at that has a file adds exactly one notification,
/// after those of the downloads before it: its title is "下载完成: " and
/// the first file's name, its body the file's path.
pub proof fn law_each_download_with_a_file_is_announced(tasks: Seq<Task>, count: nat)
    requires
        count < tasks.len(),
        tasks[count as int].files@.len() > 0,
        path_file_name(tasks[count as int].files@[0].path@) is Some,
    ensures
        notices(tasks, count + 1) == notices(tasks, count).push(
            (
                "下载完成: "@ + path_file_name(tasks[count as int].files@[0].path@).unwrap(),
                tasks[count as int].files@[0].path@,
            ),
        ),
{
}

/// A download without files adds no notification.
pub proof fn law_download_without_files_is_silent(tasks: Seq<Task>, count: nat)
    requires
        count < tasks.len(),
        tasks[count as int].files@.len() == 0,
    ensures
        notices(tasks, count + 1) == notices(tasks, count),
{
}

/// The number of downloads among the first `count` that have a file.
pub open spec fn with_files(tasks: Seq<Task>, count: nat) -> nat
    decreases count,
{
    if count == 0 {
        0
    } else {
        with_files(tasks, (count - 1) as nat) + if tasks[count - 1].files@.len() > 0 {
            1nat
        } else {
            0nat
        }
    }
}

/// There is one notification for every download looked at that has a
/// file, no more and no fewer.
pub proof fn law_one_notice_per_download_with_a_file(tasks: Seq<Task>, count: nat)
    requires
        count <= tasks.len(),
    ensures
        notices(tasks, count).len() == with_files(tasks, count),
    decreases count,
{
    if count > 0 {
        law_one_notice_per_download_with_a_file(tasks, (count - 1) as nat);
    }
}

/// The notifications for a list's front depend on that front alone.
proof fn lemma_notices_of_front(front: Seq<Task>, rest: Seq<Task>, count: nat)
    requires
        count <= front.len(),
    ensures
        notices(front + rest, count) == notices(front, count),
    decreases count,
{
    if count > 0 {
        lemma_notices_of_front(front, rest, (count - 1) as nat);
        assert((front + rest)[count - 1] == front[count - 1]);
    }
}

/// There is at most one notification for each download looked at.
proof fn lemma_notices_len(tasks: Seq<Task>, count: nat)
    ensures
        notices(tasks, count).len() <= count,
    decreases count,
{
    if count > 0 {
        lemma_notices_len(tasks, (count - 1) as nat);
    }
}

/// When the daemon's list of stopped downloads grows by `fresh` at its
/// front (it lists the newest first), a watcher that saw the previous list
/// announces exactly the downloads of `fresh` that have a file, in order,
/// and none of those it saw before.
pub proof fn law_new_downloads_announced_once(fresh: Seq<Task>, previous: Seq<Task>)
    ensures
        notices(fresh + previous, fresh_count(previous.len(), (fresh + previous).len()))
            == notices(fresh, fresh.len()),
{
    lemma_notices_of_front(fresh, previous, fresh.len());
}

/// The new downloads are those beyond the length of the previous list: as
/// many as the list grew by, none when it did not grow.
pub proof fn law_fresh_downloads_are_the_growth(seen: nat, len: nat)
    ensures
        len >= seen ==> fresh_count(seen, len) + seen == len,
        len <= seen ==> fresh_count(seen, len) == 0,
{
}

/// Observing the same list twice announces nothing the second time.
pub proof fn law_repeat_is_silent(tasks: Seq<Task>)
    ensures
        notices(tasks, fresh_count(tasks.len(), tasks.len())) == Seq::<(Seq<char>, Seq<char>)>::empty(),
{
}

/// No more notifications than new downloads.
pub proof fn law_one_notice_per_download(tasks: Seq<Task>, seen: nat)
    ensures
        notices(tasks, fresh_count(seen, tasks.len())).len() <= fresh_count(seen, tasks.len()),
{
    lemma_notices_len(tasks, fresh_count(seen, tasks.len()));
}

} // verus!
