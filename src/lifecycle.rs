//! Decisions of the single-command operations: compiling one command,
//! adding a new one, and editing one.
use vstd::prelude::*;
use vstd::string::StringExecFns;
use crate::diagnostics::{failure_text, is_uuid_v4_text, record_failure, LogRecord};
use crate::layout::{binary_ext, file_in, log_ext, source_ext, Registry};
use crate::origin::{is_url, resolve_origin, SourceOrigin};
use crate::staleness::{needs_rebuild, stale, ModTime};

verus! {

/// What loading one command calls for, given what the registry holds.
#[derive(Clone, Copy, Debug, PartialEq, Eq, Structural)]
pub enum CompilePlan {
    /// The source artifact does not exist: the command cannot be loaded.
    MissingSource,
    /// The binary is at least as new as the source: nothing to do.
    UpToDate,
    /// The binary is missing or older than the source: run the compiler.
    Rebuild,
}

/// Decides what loading a command needs from the modification times of its
/// source and binary artifacts (`None` where the file does not exist).
pub fn plan_compile(source: Option<ModTime>, binary: Option<ModTime>) -> (r: CompilePlan)
    requires
        source matches Some(s) ==> s.wf(),
        binary matches Some(b) ==> b.wf(),
    ensures
        source is None <==> r == CompilePlan::MissingSource,
        source matches Some(s) ==> (r == CompilePlan::Rebuild <==> stale(s, binary)),
{
    match source {
        None => CompilePlan::MissingSource,
        Some(s) => {
            if needs_rebuild(&s, &binary) {
                CompilePlan::Rebuild
            } else {
                CompilePlan::UpToDate
            }
        },
    }
}

/// How a load of one command ended.
pub struct LoadReport {
    /// The command is now up to date.
    pub succeeded: bool,
    /// The record to write for a failed compile.
    pub failure: Option<LogRecord>,
}

/// Concludes loading `name` under `plan`: a command that was up to date, or
/// whose compile succeeded, is loaded; a failed compile is filed as a log
/// record in `log_dir` under a fresh identifier, with the compiler's
/// diagnostics; a missing source fails with no record.
pub fn conclude_load(
    log_dir: &str,
    name: &str,
    plan: CompilePlan,
    compiler_succeeded: bool,
    diagnostics: &str,
) -> (r: LoadReport)
    ensures
        r.succeeded == (plan == CompilePlan::UpToDate || (plan == CompilePlan::Rebuild
            && compiler_succeeded)),
        r.failure is Some <==> (plan == CompilePlan::Rebuild && !compiler_succeeded),
        r.failure matches Some(rec) ==> {
            &&& is_uuid_v4_text(rec.id@)
            &&& rec.path@ == file_in(log_dir@, rec.id@, log_ext())
            &&& rec.text@ == failure_text(name@, diagnostics@)
        },
{
    match plan {
        CompilePlan::MissingSource => LoadReport { succeeded: false, failure: None },
        CompilePlan::UpToDate => LoadReport { succeeded: true, failure: None },
        CompilePlan::Rebuild => {
            if compiler_succeeded {
                LoadReport { succeeded: true, failure: None }
            } else {
                LoadReport {
                    succeeded: false,
                    failure: Some(record_failure(log_dir, name, diagnostics)),
                }
            }
        },
    }
}

/// The steps of `add`: the file to create and where its first content comes from.
pub struct AddPlan {
    pub source_path: String,
    pub origin: SourceOrigin,
}

/// Plans `add <name> [source]`: the new source artifact goes to
/// `<root>/<name>.rs`; its content is the template when no source is given,
/// else fetched from the URL or copied from the local path.
pub fn plan_add(registry: &Registry, name: &str, source: Option<String>) -> (r: AddPlan)
    ensures
        r.source_path@ == file_in(registry.root@, name@, source_ext()),
        source is None ==> r.origin is Template,
        source matches Some(s) ==> if is_url(s@) {
            r.origin matches SourceOrigin::RemoteFetch(u) && u@ == s@
        } else {
            r.origin matches SourceOrigin::LocalCopy(p) && p@ == s@
        },
{
    AddPlan { source_path: registry.source_path(name), origin: resolve_origin(source) }
}

/// `notepad`
pub open spec fn fallback_editor() -> Seq<char> {
    seq!['n', 'o', 't', 'e', 'p', 'a', 'd']
}

/// The editor to open a source in: the configured one, else `notepad`.
pub fn editor_program(configured: Option<String>) -> (r: String)
    ensures
        configured matches Some(e) ==> r@ == e@,
        configured is None ==> r@ == fallback_editor(),
{
    match configured {
        Some(e) => e,
        None => {
            proof {
                reveal_strlit("notepad");
            }
            let r = String::from_str("notepad");
            assert(r@ =~= fallback_editor());
            r
        },
    }
}

/// The two artifact paths of a command: its source and its binary.
pub struct ArtifactPaths {
    pub source: String,
    pub binary: String,
}

/// Both artifact paths of `name` in the registry.
pub fn artifact_paths(registry: &Registry, name: &str) -> (r: ArtifactPaths)
    ensures
        r.source@ == file_in(registry.root@, name@, source_ext()),
        r.binary@ == file_in(registry.root@, name@, binary_ext()),
{
    ArtifactPaths { source: registry.source_path(name), binary: registry.binary_path(name) }
}

} // verus!
