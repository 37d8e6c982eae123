//! Reloading every command in the registry: which files are commands, and a
//! batch that tries each one and aggregates the outcomes.
use vstd::prelude::*;
use vstd::string::{StrSliceExecFns, StringExecFns};
use crate::layout::source_ext;
use crate::text::{ends_with, has_suffix};

verus! {

/// The command named by a registry file: the stem of a file that ends in
/// `.rs` after a non-empty stem.
pub open spec fn command_stem_of(file_name: Seq<char>) -> Option<Seq<char>> {
    if file_name.len() > source_ext().len() && ends_with(file_name, source_ext()) {
        Some(file_name.subrange(0, file_name.len() - source_ext().len()))
    } else {
        None
    }
}

/// The command a registry file stands for, if it is a source artifact.
pub fn command_stem(file_name: &str) -> (r: Option<String>)
    ensures
        r is None ==> command_stem_of(file_name@) is None,
        r matches Some(s) ==> command_stem_of(file_name@) == Some(s@),
{
    proof {
        reveal_strlit(".rs");
        assert(".rs"@ =~= source_ext());
    }
    let n = file_name.unicode_len();
    if n > 3 && has_suffix(file_name, ".rs") {
        Some(String::from_str(file_name.substring_char(0, n - 3)))
    } else {
        None
    }
}

/// The views of a list of strings.
pub open spec fn texts(v: Seq<String>) -> Seq<Seq<char>> {
    v.map_values(|s: String| s@)
}

/// The commands named by a directory listing, in listing order.
pub open spec fn targets_of(file_names: Seq<Seq<char>>) -> Seq<Seq<char>>
    decreases file_names.len(),
{
    if file_names.len() == 0 {
        seq![]
    } else {
        let earlier = targets_of(file_names.drop_last());
        match command_stem_of(file_names.last()) {
            Some(stem) => earlier.push(stem),
            None => earlier,
        }
    }
}

/// The commands that `reload all` processes, from the registry's file names.
pub fn reload_targets(file_names: &Vec<String>) -> (r: Vec<String>)
    ensures
        texts(r@) == targets_of(texts(file_names@)),
{
    let mut r: Vec<String> = Vec::new();
    let mut i: usize = 0;
    while i < file_names.len()
        invariant
            i <= file_names@.len(),
            texts(r@) == targets_of(texts(file_names@).take(i as int)),
        decreases file_names@.len() - i,
    {
        let ghost before = texts(file_names@).take(i as int);
        let ghost after = texts(file_names@).take(i as int + 1);
        assert(after.drop_last() =~= before);
        assert(after.last() == file_names@[i as int]@);
        match command_stem(file_names[i].as_str()) {
            Some(stem) => {
                r.push(stem);
                assert(texts(r@) =~= targets_of(before).push(stem@));
            },
            None => {},
        }
        i += 1;
    }
    assert(texts(file_names@).take(file_names@.len() as int) =~= texts(file_names@));
    r
}

/// How many of the outcomes are failures.
pub open spec fn failures_in(outcomes: Seq<bool>) -> nat
    decreases outcomes.len(),
{
    if outcomes.len() == 0 {
        0
    } else {
        failures_in(outcomes.drop_last()) + if outcomes.last() {
            0nat
        } else {
            1nat
        }
    }
}

/// A reload of several commands in turn. Each target is attempted once, in
/// order, whatever became of the ones before it.
pub struct Batch {
    pub targets: Vec<String>,
    pub next: usize,
    pub failures: usize,
    pub outcomes: Ghost<Seq<bool>>,
}

impl Batch {
    /// `next` targets were attempted, with these outcomes, of which
    /// `failures` failed.
    pub open spec fn wf(&self) -> bool {
        &&& self.next <= self.targets@.len()
        &&& self.outcomes@.len() == self.next
        &&& self.failures == failures_in(self.outcomes@)
        &&& self.failures <= self.next
    }

    pub fn new(targets: Vec<String>) -> (r: Batch)
        ensures
            r.wf(),
            r.targets@ == targets@,
            r.next == 0,
            r.outcomes@ == Seq::<bool>::empty(),
    {
        Batch { targets, next: 0, failures: 0, outcomes: Ghost(Seq::empty()) }
    }

    /// The command to compile next, or `None` once every target was tried.
    pub fn current(&self) -> (r: Option<String>)
        requires
            self.wf(),
        ensures
            self.next < self.targets@.len() ==> r == Some(self.targets@[self.next as int]),
            self.next >= self.targets@.len() ==> r is None,
    {
        if self.next < self.targets.len() {
            Some(self.targets[self.next].clone())
        } else {
            None
        }
    }

    /// Records the outcome of the current target and moves on to the next,
    /// whether or not it succeeded.
    pub fn record(&mut self, succeeded: bool)
        requires
            old(self).wf(),
            old(self).next < old(self).targets@.len(),
        ensures
            final(self).wf(),
            final(self).targets@ == old(self).targets@,
            final(self).next == old(self).next + 1,
            final(self).outcomes@ == old(self).outcomes@.push(succeeded),
    {
        let count = self.targets.len();
        let ghost before = self.outcomes@;
        self.outcomes = Ghost(before.push(succeeded));
        assert(self.outcomes@.drop_last() =~= before);
        if !succeeded {
            self.failures = self.failures + 1;
        }
        assert(self.next < count);
        self.next = self.next + 1;
    }

    /// Whether every attempt so far succeeded; `false` reports a partial failure.
    pub fn all_succeeded(&self) -> (r: bool)
        requires
            self.wf(),
        ensures
            r == (failures_in(self.outcomes@) == 0),
            r == (forall|i: int| 0 <= i < self.outcomes@.len() ==> self.outcomes@[i]),
    {
        proof {
            lemma_no_failures(self.outcomes@);
        }
        self.failures == 0
    }
}

/// No failure is counted exactly when every outcome is a success.
pub proof fn lemma_no_failures(outcomes: Seq<bool>)
    ensures
        (failures_in(outcomes) == 0) == (forall|i: int| 0 <= i < outcomes.len() ==> outcomes[i]),
    decreases outcomes.len(),
{
    if outcomes.len() > 0 {
        lemma_no_failures(outcomes.drop_last());
        if failures_in(outcomes) == 0 {
            assert forall|i: int| 0 <= i < outcomes.len() implies outcomes[i] by {
                if i < outcomes.len() - 1 {
                    assert(outcomes.drop_last()[i] == outcomes[i]);
                }
            }
        } else if failures_in(outcomes.drop_last()) > 0 {
            let j = choose|j: int| 0 <= j < outcomes.len() - 1 && !outcomes.drop_last()[j];
            assert(!outcomes[j]);
        } else {
            assert(!outcomes[outcomes.len() - 1]);
        }
    }
}

/// One command that fails to compile does not stop the others: a batch that
/// has recorded an outcome for every target reports a partial failure as soon
/// as any target failed, and every other target was still attempted, each
/// success counted.
pub proof fn lemma_batch_isolation(batch: Batch, failed: int)
    requires
        batch.wf(),
        batch.next == batch.targets@.len(),
        0 <= failed < batch.outcomes@.len(),
        !batch.outcomes@[failed],
    ensures
        failures_in(batch.outcomes@) >= 1,
        batch.outcomes@.len() == batch.targets@.len(),
        batch.outcomes@.len() - failures_in(batch.outcomes@) == (batch.outcomes@.filter(
            |b: bool| b,
        )).len(),
{
    lemma_no_failures(batch.outcomes@);
    lemma_successes_complement(batch.outcomes@);
}

/// Successes and failures together account for every outcome.
pub proof fn lemma_successes_complement(outcomes: Seq<bool>)
    ensures
        outcomes.len() - failures_in(outcomes) == (outcomes.filter(|b: bool| b)).len(),
    decreases outcomes.len(),
{
    reveal(Seq::filter);
    if outcomes.len() > 0 {
        lemma_successes_complement(outcomes.drop_last());
    }
}

} // verus!
