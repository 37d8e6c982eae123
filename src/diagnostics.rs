//! Compile-failure log records: a fresh identifier per failure, the record's
//! file and text, and finding a record again by its identifier.
use vstd::prelude::*;
use vstd::string::StringExecFns;
use crate::layout::{file_in, log_ext, log_path};
use crate::text::{occurs_in, same_text};

verus! {

/// A lowercase hexadecimal digit.
pub open spec fn is_lower_hex(c: char) -> bool {
    ('0' <= c && c <= '9') || ('a' <= c && c <= 'f')
}

/// The positions of the four hyphens in a hyphenated UUID.
pub open spec fn is_hyphen_slot(i: int) -> bool {
    i == 8 || i == 13 || i == 18 || i == 23
}

/// The hyphenated lowercase text of a random (version 4) UUID:
/// `xxxxxxxx-xxxx-4xxx-xxxx-xxxxxxxxxxxx`.
pub open spec fn is_uuid_v4_text(s: Seq<char>) -> bool {
    &&& s.len() == 36
    &&& forall|i: int|
        0 <= i < 36 ==> if is_hyphen_slot(i) {
            #[trigger] s[i] == '-'
        } else {
            is_lower_hex(s[i])
        }
    &&& s[14] == '4'
}

/// Relies on uuid::Uuid::new_v4, which draws a random version-4 UUID, and on
/// its Display impl, which writes the hyphenated lowercase form.
#[verifier::external_body]
fn fresh_uuid_text() -> (r: String)
    ensures
        is_uuid_v4_text(r@),
{
    uuid::Uuid::new_v4().to_string()
}

/// `Failed to compile command `
pub open spec fn failure_lead() -> Seq<char> {
    seq![
        'F', 'a', 'i', 'l', 'e', 'd', ' ', 't', 'o', ' ', 'c', 'o', 'm', 'p', 'i', 'l', 'e', ' ',
        'c', 'o', 'm', 'm', 'a', 'n', 'd', ' ',
    ]
}

/// The text of the log record for a failed compile of `name`: the command's
/// name followed by the compiler's diagnostics, verbatim.
pub open spec fn failure_text(name: Seq<char>, diagnostics: Seq<char>) -> Seq<char> {
    failure_lead() + name + seq![':', ' '] + diagnostics
}

/// `Failed to compile command <name>: <diagnostics>`
pub fn failure_message(name: &str, diagnostics: &str) -> (r: String)
    ensures
        r@ == failure_text(name@, diagnostics@),
{
    proof {
        reveal_strlit("Failed to compile command ");
        reveal_strlit(": ");
    }
    let r = String::from_str("Failed to compile command ").concat(name).concat(": ").concat(
        diagnostics,
    );
    assert(r@ =~= failure_text(name@, diagnostics@));
    r
}

/// One compile failure, ready to be written out: its identifier, the file it
/// goes to and what the file holds.
pub struct LogRecord {
    pub id: String,
    pub path: String,
    pub text: String,
}

/// The record of one failed compile of `name`, filed under a fresh random
/// identifier in `log_dir`.
pub fn record_failure(log_dir: &str, name: &str, diagnostics: &str) -> (r: LogRecord)
    ensures
        is_uuid_v4_text(r.id@),
        r.path@ == file_in(log_dir@, r.id@, log_ext()),
        r.text@ == failure_text(name@, diagnostics@),
{
    let id = fresh_uuid_text();
    let path = log_path(log_dir, id.as_str());
    let text = failure_message(name, diagnostics);
    LogRecord { id, path, text }
}

/// What `showlogs` is asked for.
pub enum LogQuery {
    /// Report where the logs are kept.
    Directory(String),
    /// Print the log record held in this file.
    Record(String),
}

/// The log identifier that asks for the logs directory instead of a record.
pub open spec fn directory_id() -> Seq<char> {
    seq!['0']
}

/// The file that `showlogs <id>` reads, or `None` when `id` asks for the
/// logs directory.
pub open spec fn queried_file(log_dir: Seq<char>, id: Seq<char>) -> Option<Seq<char>> {
    if id == directory_id() {
        None
    } else {
        Some(file_in(log_dir, id, log_ext()))
    }
}

/// What `showlogs <id>` looks at: the directory itself for `0`, else the
/// record file named by `id`.
pub fn log_query(log_dir: &str, id: &str) -> (r: LogQuery)
    ensures
        match r {
            LogQuery::Directory(d) => queried_file(log_dir@, id@) is None && d@ == log_dir@,
            LogQuery::Record(p) => queried_file(log_dir@, id@) == Some(p@),
        },
{
    proof {
        reveal_strlit("0");
        assert("0"@ =~= directory_id());
    }
    if same_text(id, "0") {
        LogQuery::Directory(String::from_str(log_dir))
    } else {
        LogQuery::Record(log_path(log_dir, id))
    }
}

/// A failure's record can be found again: the identifier it was filed under
/// leads `showlogs` to the very file it was written to, and that file's text
/// is not empty and names the command.
pub proof fn lemma_log_retrievable(
    log_dir: Seq<char>,
    name: Seq<char>,
    diagnostics: Seq<char>,
    id: Seq<char>,
    path: Seq<char>,
    text: Seq<char>,
)
    requires
        is_uuid_v4_text(id),
        path == file_in(log_dir, id, log_ext()),
        text == failure_text(name, diagnostics),
    ensures
        queried_file(log_dir, id) == Some(path),
        text.len() > 0,
        occurs_in(name, text),
{
    assert(id.len() != directory_id().len());
    let k = failure_lead().len() as int;
    assert(text.subrange(k, k + name.len()) =~= name);
}

} // verus!
