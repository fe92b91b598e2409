//! The web interface's file actions: opening a downloaded file and removing
//! it with a command, and the status each of them answers with.

use vstd::prelude::*;
use vstd::utf8::{decode_utf8, valid_utf8};

verus! {

/// The query of a file action: the file, and for removal an optional
/// command to use in place of `rm`.
#[derive(Clone, Debug, PartialEq)]
pub struct FileForm {
    pub file: String,
    pub cmd: Option<String>,
}

/// The answer to a file action, sent back as JSON.
#[derive(Clone, Debug, PartialEq)]
pub enum ApiStatus {
    /// `{"status": "ok"}`
    Succeeded,
    /// `{"status": "failed", "error": ...}`
    Failed { error: String },
}

/// A command line to run.
#[derive(Clone, Debug, PartialEq)]
pub struct CommandLine {
    pub program: String,
    pub args: Vec<String>,
}

/// The program that removes the file: the one the query names, else `rm`.
pub open spec fn removal_program(form: FileForm) -> Seq<char> {
    match form.cmd {
        Some(c) => c@,
        None => "rm"@,
    }
}

/// The command that removes the file of the query: the program, with the
/// file as its only argument.
pub fn removal_command(form: &FileForm) -> (command: CommandLine)
    ensures
        command.program@ == removal_program(*form),
        form.cmd is None ==> command.program@ == "rm"@,
        form.cmd matches Some(c) ==> command.program@ == c@,
        command.args@.len() == 1,
        command.args@[0]@ == form.file@,
{
    let program = match &form.cmd {
        Some(c) => c.clone(),
        None => String::from_str("rm"),
    };
    let mut args: Vec<String> = Vec::new();
    args.push(form.file.clone());
    CommandLine { program, args }
}

/// The text that `String::from_utf8_lossy` makes of some bytes.
pub uninterp spec fn utf8_lossy(bytes: Seq<u8>) -> Seq<char>;

/// Calls `String::from_utf8_lossy`. Trusted: the result is the text named
/// `utf8_lossy`; as the documentation says, valid UTF-8 is decoded as it is
/// (other bytes become replacement characters, which is left unsaid).
#[verifier::external_body]
fn lossy_text(bytes: &[u8]) -> (text: String)
    ensures
        text@ == utf8_lossy(bytes@),
        valid_utf8(bytes@) ==> text@ == decode_utf8(bytes@),
{
    String::from_utf8_lossy(bytes).into_owned()
}

/// The `Debug` rendering of a string: quoted, with special characters escaped.
pub uninterp spec fn debug_quoted(text: Seq<char>) -> Seq<char>;

/// A character that `Debug` writes as itself or with a short escape:
/// printable ASCII, newline, carriage return or tab.
pub open spec fn plain_ascii(c: char) -> bool {
    (' ' <= c && c <= '~') || c == '\n' || c == '\r' || c == '\t'
}

/// How `Debug` writes a plain ASCII character inside a quoted string.
pub open spec fn debug_escape(c: char) -> Seq<char> {
    if c == '"' {
        seq!['\\', '"']
    } else if c == '\\' {
        seq!['\\', '\\']
    } else if c == '\n' {
        seq!['\\', 'n']
    } else if c == '\r' {
        seq!['\\', 'r']
    } else if c == '\t' {
        seq!['\\', 't']
    } else {
        seq![c]
    }
}

/// The characters of a text, each written as `debug_escape` writes it.
pub open spec fn debug_escaped(text: Seq<char>) -> Seq<char>
    decreases text.len(),
{
    if text.len() == 0 {
        Seq::<char>::empty()
    } else {
        debug_escaped(text.drop_last()) + debug_escape(text.last())
    }
}

/// Renders a string with `format!("{:?}", ..)`. Trusted: the result is the
/// rendering named `debug_quoted`, which, as the documentation of `Debug`
/// for `str` and of `char::escape_debug` says, is the text between double
/// quotes, with quotes, backslashes, newlines, carriage returns and tabs
/// escaped by a backslash. That is stated for texts of plain ASCII; the
/// escapes of other characters are left unsaid.
#[verifier::external_body]
fn debug_string(text: &str) -> (rendered: String)
    ensures
        rendered@ == debug_quoted(text@),
        rendered@.len() >= 2,
        rendered@[0] == '"',
        rendered@.last() == '"',
        (forall|i: int| 0 <= i < text@.len() ==> plain_ascii(#[trigger] text@[i])) ==> rendered@
            == seq!['"'] + debug_escaped(text@) + seq!['"'],
{
    format!("{:?}", text)
}

/// The error reported for a failed removal: the command's standard error,
/// after "stderr: ", quoted.
pub open spec fn removal_error(stderr: Seq<u8>) -> Seq<char> {
    debug_quoted("stderr: "@ + utf8_lossy(stderr))
}

/// The answer to a removal whose command exited with `success` and wrote
/// `stderr`.
pub fn removal_status(success: bool, stderr: &[u8]) -> (status: ApiStatus)
    ensures
        success ==> status is Succeeded,
        !success ==> (status matches ApiStatus::Failed { error } && error@ == removal_error(
            stderr@,
        ) && error@ == debug_quoted("stderr: "@ + utf8_lossy(stderr@))),
{
    if success {
        ApiStatus::Succeeded
    } else {
        let mut message = String::from_str("stderr: ");
        let text = lossy_text(stderr);
        message.append(text.as_str());
        ApiStatus::Failed { error: debug_string(message.as_str()) }
    }
}

/// The answer to an attempt to open a file: the rendered error when the
/// opener failed.
pub fn open_status(failure: Option<String>) -> (status: ApiStatus)
    ensures
        failure is None ==> status is Succeeded,
        failure matches Some(e) ==> status == (ApiStatus::Failed { error: e }),
{
    match failure {
        None => ApiStatus::Succeeded,
        Some(error) => ApiStatus::Failed { error },
    }
}

impl ApiStatus {
    /// The value of the answer's `status` field.
    pub fn status_text(&self) -> (text: &'static str)
        ensures
            self is Succeeded ==> text@ == "ok"@,
            self is Failed ==> text@ == "failed"@,
    {
        match self {
            ApiStatus::Succeeded => "ok",
            ApiStatus::Failed { .. } => "failed",
        }
    }
}

} // verus!
