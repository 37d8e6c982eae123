//! When a command's compiled artifact must be rebuilt from its source.
use vstd::prelude::*;

verus! {

/// Nanoseconds in one second.
pub const NANOS_PER_SEC: u32 = 1_000_000_000;

/// A file's last-modification time: whole seconds relative to the Unix epoch
/// (negative before it) and the nanoseconds past that second.
#[derive(Clone, Copy, Debug, PartialEq, Eq, Structural)]
pub struct ModTime {
    pub secs: i64,
    pub nanos: u32,
}

impl ModTime {
    /// The nanosecond part stays below one second.
    pub open spec fn wf(self) -> bool {
        self.nanos < NANOS_PER_SEC
    }

    /// The instant as a count of nanoseconds since the epoch.
    pub open spec fn as_nanos(self) -> int {
        self.secs * NANOS_PER_SEC + self.nanos
    }

    pub fn new(secs: i64, nanos: u32) -> (r: ModTime)
        requires
            nanos < NANOS_PER_SEC,
        ensures
            r.wf(),
            r.secs == secs,
            r.nanos == nanos,
    {
        ModTime { secs, nanos }
    }

    /// Whether `self` lies strictly before `other`.
    pub fn is_before(&self, other: &ModTime) -> (r: bool)
        requires
            self.wf(),
            other.wf(),
        ensures
            r == (self.as_nanos() < other.as_nanos()),
    {
        let a = *self;
        let b = *other;
        if a.secs < b.secs {
            assert(a.as_nanos() < b.as_nanos()) by (nonlinear_arith)
                requires
                    a.secs < b.secs,
                    a.nanos < 1_000_000_000,
                    a.as_nanos() == a.secs * 1_000_000_000 + a.nanos,
                    b.as_nanos() == b.secs * 1_000_000_000 + b.nanos,
            ;
            true
        } else if a.secs > b.secs {
            assert(a.as_nanos() > b.as_nanos()) by (nonlinear_arith)
                requires
                    a.secs > b.secs,
                    b.nanos < 1_000_000_000,
                    a.as_nanos() == a.secs * 1_000_000_000 + a.nanos,
                    b.as_nanos() == b.secs * 1_000_000_000 + b.nanos,
            ;
            false
        } else {
            a.nanos < b.nanos
        }
    }
}

/// A command is stale when its binary is missing or strictly older than its
/// source. Equal times count as up to date: on file systems with coarse time
/// resolution this may skip a rebuild that was due.
pub open spec fn stale(source: ModTime, binary: Option<ModTime>) -> bool {
    match binary {
        None => true,
        Some(b) => b.as_nanos() < source.as_nanos(),
    }
}

/// Whether the command whose source was last modified at `source` must be
/// compiled again, given the modification time of its binary, if any.
pub fn needs_rebuild(source: &ModTime, binary: &Option<ModTime>) -> (r: bool)
    requires
        source.wf(),
        binary matches Some(b) ==> b.wf(),
    ensures
        r == stale(*source, *binary),
        binary is None ==> r,
        binary matches Some(b) ==> (r <==> source.as_nanos() > b.as_nanos()),
{
    match binary {
        None => true,
        Some(b) => b.is_before(source),
    }
}

/// The binary's modification time after one load: a stale command is compiled,
/// which leaves a binary stamped `built`; an up-to-date one is left alone.
pub open spec fn after_load(source: ModTime, binary: Option<ModTime>, built: ModTime) -> Option<
    ModTime,
> {
    if stale(source, binary) {
        Some(built)
    } else {
        binary
    }
}

/// How many times the compiler runs over two loads in a row with no edit of
/// the source in between.
pub open spec fn compiles_over_two_loads(
    source: ModTime,
    binary: Option<ModTime>,
    built: ModTime,
) -> nat {
    (if stale(source, binary) {
        1nat
    } else {
        0nat
    }) + (if stale(source, after_load(source, binary, built)) {
        1nat
    } else {
        0nat
    })
}

/// Loading twice without editing the source in between compiles at most once:
/// once when the command was stale, not at all otherwise. The binary a compile
/// writes is stamped no earlier than the source it was built from.
pub proof fn lemma_reload_idempotent(source: ModTime, binary: Option<ModTime>, built: ModTime)
    requires
        source.wf(),
        built.wf(),
        binary matches Some(b) ==> b.wf(),
        source.as_nanos() <= built.as_nanos(),
    ensures
        !stale(source, after_load(source, binary, built)),
        compiles_over_two_loads(source, binary, built) == (if stale(source, binary) {
            1nat
        } else {
            0nat
        }),
{
}

} // verus!
