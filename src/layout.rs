//! Where a command's artifacts and the compile logs live under the registry root.
use vstd::prelude::*;
use vstd::string::StringExecFns;

verus! {

/// The file-name ending of a command's source artifact.
pub open spec fn source_ext() -> Seq<char> {
    seq!['.', 'r', 's']
}

/// The file-name ending of a command's compiled artifact.
pub open spec fn binary_ext() -> Seq<char> {
    seq!['.', 'e', 'x', 'e']
}

/// The file-name ending of a log record.
pub open spec fn log_ext() -> Seq<char> {
    seq!['.', 'l', 'o', 'g']
}

/// The name of the subdirectory that holds the log records.
pub open spec fn logs_name() -> Seq<char> {
    seq!['l', 'o', 'g', 's']
}

/// The path of the file `stem` + `ext` inside directory `dir`.
pub open spec fn file_in(dir: Seq<char>, stem: Seq<char>, ext: Seq<char>) -> Seq<char> {
    dir + seq!['/'] + stem + ext
}

/// `dir/stem` followed by `ext`.
pub fn join_path(dir: &str, stem: &str, ext: &str) -> (r: String)
    ensures
        r@ == file_in(dir@, stem@, ext@),
{
    proof {
        reveal_strlit("/");
    }
    let r = String::from_str(dir).concat("/").concat(stem).concat(ext);
    r
}

/// The directory that holds every command's artifacts and the logs directory.
pub struct Registry {
    pub root: String,
}

impl Registry {
    pub fn new(root: String) -> (r: Registry)
        ensures
            r.root@ == root@,
    {
        Registry { root }
    }

    /// `<root>/<name>.rs`
    pub fn source_path(&self, name: &str) -> (r: String)
        ensures
            r@ == file_in(self.root@, name@, source_ext()),
    {
        proof {
            reveal_strlit(".rs");
        }
        join_path(self.root.as_str(), name, ".rs")
    }

    /// `<root>/<name>.exe`
    pub fn binary_path(&self, name: &str) -> (r: String)
        ensures
            r@ == file_in(self.root@, name@, binary_ext()),
    {
        proof {
            reveal_strlit(".exe");
        }
        join_path(self.root.as_str(), name, ".exe")
    }

    /// `<root>/logs`
    pub fn log_dir(&self) -> (r: String)
        ensures
            r@ == file_in(self.root@, logs_name(), seq![]),
    {
        proof {
            reveal_strlit("logs");
            reveal_strlit("");
        }
        join_path(self.root.as_str(), "logs", "")
    }
}

/// `<log_dir>/<id>.log`
pub fn log_path(log_dir: &str, id: &str) -> (r: String)
    ensures
        r@ == file_in(log_dir@, id@, log_ext()),
{
    proof {
        reveal_strlit(".log");
    }
    join_path(log_dir, id, ".log")
}

} // verus!
