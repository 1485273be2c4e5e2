//! Retry bookkeeping for failed pipeline stages.
//!
//! The retry coordinator counts, per crate, the retry attempts it has
//! scheduled. A failure that may be retried gets the next attempt number as
//! long as the policy's maximum number of attempts is not exceeded; once it
//! would be, the crate's count is dropped and no retry is scheduled. How long
//! to wait before an attempt is decided by the caller's backoff policy.

use vstd::prelude::*;

use crate::crate_specifier::{CrateSpecifier, CrateSpecifierView};
use crate::text::{clone_strings, strings_view};

verus! {

/// The retry attempts scheduled for one crate.
pub struct RetryEntry {
    pub specifier: CrateSpecifier,
    pub attempts: u32,
}

/// The position of the first entry of a crate, if it has one.
pub open spec fn entry_index(entries: Seq<(CrateSpecifierView, u32)>, s: CrateSpecifierView) -> Option<
    int,
>
    decreases entries.len(),
{
    if entries.len() == 0 {
        None
    } else if entries[0].0 == s {
        Some(0)
    } else {
        match entry_index(entries.drop_first(), s) {
            Some(i) => Some(i + 1),
            None => None,
        }
    }
}

/// The number of retry attempts scheduled so far for a crate (0 if none).
pub open spec fn attempts_of(entries: Seq<(CrateSpecifierView, u32)>, s: CrateSpecifierView) -> u32 {
    match entry_index(entries, s) {
        Some(i) => entries[i].1,
        None => 0,
    }
}

/// Whether attempt number `attempt` is still allowed by the policy.
pub open spec fn attempt_allowed(attempt: int, max_attempts: u32) -> bool {
    attempt <= max_attempts
}

/// What became of a request to retry.
#[derive(Debug, Clone, Copy, PartialEq, Eq, Structural)]
pub enum RetryDecision {
    /// The error cannot be retried; nothing changes.
    NotRetryable,
    /// The maximum number of attempts was reached; the crate's count is dropped.
    GaveUp,
    /// Attempt number `attempt` is to be made after the backoff delay.
    Retry { attempt: u32 },
}

/// The retry coordinator's state after a request, and its decision.
pub struct RetryStep {
    pub entries: Seq<(CrateSpecifierView, u32)>,
    pub decision: RetryDecision,
}

/// What a request to retry a crate does to the attempt counts.
pub open spec fn retry_step(
    entries: Seq<(CrateSpecifierView, u32)>,
    max_attempts: u32,
    s: CrateSpecifierView,
    retryable: bool,
) -> RetryStep {
    if !retryable {
        RetryStep { entries, decision: RetryDecision::NotRetryable }
    } else {
        let attempt = attempts_of(entries, s) + 1;
        if !attempt_allowed(attempt, max_attempts) {
            RetryStep {
                entries: match entry_index(entries, s) {
                    Some(i) => entries.remove(i),
                    None => entries,
                },
                decision: RetryDecision::GaveUp,
            }
        } else {
            RetryStep {
                entries: match entry_index(entries, s) {
                    Some(i) => entries.update(i, (s, attempt as u32)),
                    None => entries.push((s, attempt as u32)),
                },
                decision: RetryDecision::Retry { attempt: attempt as u32 },
            }
        }
    }
}

/// Each crate has at most one entry, and every count is an allowed attempt.
pub open spec fn entries_wf(entries: Seq<(CrateSpecifierView, u32)>, max_attempts: u32) -> bool {
    &&& forall|i: int, j: int|
        0 <= i < entries.len() && 0 <= j < entries.len() && i != j ==> entries[i].0 != entries[j].0
    &&& forall|i: int| 0 <= i < entries.len() ==> 1 <= #[trigger] entries[i].1 <= max_attempts
}

/// A retry that is to be made: the crate, its features and the attempt number.
pub struct RetryRequest {
    pub specifier: CrateSpecifier,
    pub features: Vec<String>,
    pub retry_attempt: u32,
}

/// The retry coordinator's state: the policy's maximum number of attempts
/// and the attempts scheduled per crate.
pub struct RetryCoordinator {
    max_attempts: u32,
    active_retries: Vec<RetryEntry>,
}

pub open spec fn entries_view(v: Seq<RetryEntry>) -> Seq<(CrateSpecifierView, u32)> {
    Seq::new(v.len(), |i: int| (v[i].specifier@, v[i].attempts))
}

/// `entry_index` gives the first entry of a crate.
pub proof fn lemma_entry_index(entries: Seq<(CrateSpecifierView, u32)>, s: CrateSpecifierView)
    ensures
        match entry_index(entries, s) {
            Some(i) => 0 <= i < entries.len() && entries[i].0 == s && forall|j: int|
                0 <= j < i ==> entries[j].0 != s,
            None => forall|j: int| 0 <= j < entries.len() ==> entries[j].0 != s,
        },
    decreases entries.len(),
{
    if entries.len() > 0 {
        lemma_entry_index(entries.drop_first(), s);
        if entries[0].0 != s {
            assert forall|j: int| 1 <= j < entries.len() implies entries[j] == entries.drop_first()[j
                - 1] by {}
        }
    }
}

impl RetryCoordinator {
    /// The attempts scheduled per crate.
    pub closed spec fn entries(&self) -> Seq<(CrateSpecifierView, u32)> {
        entries_view(self.active_retries@)
    }

    /// The policy's maximum number of attempts.
    pub closed spec fn spec_max_attempts(&self) -> u32 {
        self.max_attempts
    }

    /// The coordinator's invariant.
    pub open spec fn wf(&self) -> bool {
        entries_wf(self.entries(), self.spec_max_attempts())
    }

    /// A coordinator with no retry scheduled.
    pub fn new(max_attempts: u32) -> (c: Self)
        ensures
            c.entries() == Seq::<(CrateSpecifierView, u32)>::empty(),
            c.spec_max_attempts() == max_attempts,
            c.wf(),
    {
        let c = RetryCoordinator { max_attempts, active_retries: Vec::new() };
        assert(c.entries() =~= Seq::<(CrateSpecifierView, u32)>::empty());
        c
    }

    /// The policy's maximum number of attempts.
    pub fn max_attempts(&self) -> (m: u32)
        ensures
            m == self.spec_max_attempts(),
    {
        self.max_attempts
    }

    /// The number of retry attempts scheduled so far for a crate.
    pub fn attempts(&self, specifier: &CrateSpecifier) -> (n: u32)
        ensures
            n == attempts_of(self.entries(), specifier@),
    {
        match self.find(specifier) {
            Some(i) => self.active_retries[i].attempts,
            None => 0,
        }
    }

    fn find(&self, specifier: &CrateSpecifier) -> (r: Option<usize>)
        ensures
            match r {
                Some(i) => entry_index(self.entries(), specifier@) == Some(i as int) && i
                    < self.active_retries.len(),
                None => entry_index(self.entries(), specifier@) is None,
            },
    {
        let ghost entries = self.entries();
        assert(entries.subrange(0, entries.len() as int) =~= entries);
        let mut i: usize = 0;
        while i < self.active_retries.len()
            invariant
                i <= self.active_retries.len(),
                entries == self.entries(),
                entries.len() == self.active_retries.len(),
                entry_index(entries, specifier@) == match entry_index(
                    entries.subrange(i as int, entries.len() as int),
                    specifier@,
                ) {
                    Some(k) => Some(k + i),
                    None => None::<int>,
                },
            decreases self.active_retries.len() - i,
        {
            let ghost rest = entries.subrange(i as int, entries.len() as int);
            assert(rest[0] == entries[i as int]);
            if self.active_retries[i].specifier.same_as(specifier) {
                return Some(i);
            }
            assert(rest.drop_first() =~= entries.subrange(i + 1, entries.len() as int));
            i = i + 1;
        }
        None
    }

    /// Handles a request to retry a crate whose processing failed with an
    /// error that `retryable` classifies: see [`retry_step`]. When a retry is
    /// to be made, the request to broadcast after the backoff delay is
    /// returned with it.
    pub fn schedule(&mut self, specifier: CrateSpecifier, features: Vec<String>, retryable: bool) -> (r: (
        RetryDecision,
        Option<RetryRequest>,
    ))
        requires
            old(self).wf(),
        ensures
            final(self).wf(),
            final(self).spec_max_attempts() == old(self).spec_max_attempts(),
            final(self).entries() == retry_step(
                old(self).entries(),
                old(self).spec_max_attempts(),
                specifier@,
                retryable,
            ).entries,
            r.0 == retry_step(old(self).entries(), old(self).spec_max_attempts(), specifier@, retryable).decision,
            match r.0 {
                RetryDecision::Retry { attempt } => r.1 matches Some(req) && req.specifier@
                    == specifier@ && strings_view(req.features@) == strings_view(features@)
                    && req.retry_attempt == attempt,
                _ => r.1 is None,
            },
    {
        let ghost entries0 = self.entries();
        let ghost max = self.max_attempts;
        if !retryable {
            return (RetryDecision::NotRetryable, None);
        }
        let found = self.find(&specifier);
        proof {
            lemma_entry_index(entries0, specifier@);
        }
        let current: u32 = match found {
            Some(i) => self.active_retries[i].attempts,
            None => 0,
        };
        if current >= self.max_attempts {
            match found {
                Some(i) => {
                    self.active_retries.remove(i);
                    assert(self.entries() =~= entries0.remove(i as int));
                },
                None => {},
            }
            assert(entries_wf(self.entries(), max)) by {
                match found {
                    Some(i) => {
                        assert forall|a: int, b: int|
                            0 <= a < self.entries().len() && 0 <= b < self.entries().len() && a
                                != b implies self.entries()[a].0 != self.entries()[b].0 by {
                            let a0 = if a < i { a } else { a + 1 };
                            let b0 = if b < i { b } else { b + 1 };
                            assert(self.entries()[a] == entries0[a0]);
                            assert(self.entries()[b] == entries0[b0]);
                        }
                        assert forall|a: int| 0 <= a < self.entries().len() implies 1
                            <= #[trigger] self.entries()[a].1 <= max by {
                            let a0 = if a < i { a } else { a + 1 };
                            assert(self.entries()[a] == entries0[a0]);
                        }
                    },
                    None => {},
                }
            }
            return (RetryDecision::GaveUp, None);
        }
        let attempt = current + 1;
        let request = RetryRequest {
            specifier: specifier.duplicate(),
            features: clone_strings(&features),
            retry_attempt: attempt,
        };
        match found {
            Some(i) => {
                self.active_retries.set(i, RetryEntry { specifier, attempts: attempt });
                assert(self.entries() =~= entries0.update(i as int, (specifier@, attempt)));
            },
            None => {
                self.active_retries.push(RetryEntry { specifier, attempts: attempt });
                assert(self.entries() =~= entries0.push((specifier@, attempt)));
                assert(self.entries()[entries0.len() as int].0 == request.specifier@);
            },
        }
        (RetryDecision::Retry { attempt }, Some(request))
    }
}

/// A crate is retried at most `max_attempts` times in a row: a request to
/// retry is granted exactly when fewer than `max_attempts` attempts are
/// counted for the crate, and then counts one more.
pub proof fn law_attempts_bounded(
    entries: Seq<(CrateSpecifierView, u32)>,
    max_attempts: u32,
    s: CrateSpecifierView,
)
    requires
        entries_wf(entries, max_attempts),
    ensures
        attempts_of(entries, s) <= max_attempts,
        ({
            let step = retry_step(entries, max_attempts, s, true);
            &&& (step.decision is Retry) == (attempts_of(entries, s) < max_attempts)
            &&& step.decision is Retry ==> attempts_of(step.entries, s) == attempts_of(entries, s) + 1
                && step.decision->attempt == attempts_of(step.entries, s)
            &&& step.decision is GaveUp ==> attempts_of(step.entries, s) == 0
            &&& entries_wf(step.entries, max_attempts)
        }),
{
    lemma_entry_index(entries, s);
    let step = retry_step(entries, max_attempts, s, true);
    match entry_index(entries, s) {
        Some(i) => {
            assert(1 <= entries[i].1 <= max_attempts);
        },
        None => {},
    }
    lemma_step_keeps_wf(entries, max_attempts, s);
    lemma_entry_index(step.entries, s);
    if step.decision is Retry {
        match entry_index(entries, s) {
            Some(i) => {
                assert(step.entries[i].0 == s);
                match entry_index(step.entries, s) {
                    Some(k) => {
                        assert(k == i);
                    },
                    None => {},
                }
            },
            None => {
                assert(step.entries[entries.len() as int].0 == s);
                match entry_index(step.entries, s) {
                    Some(k) => {
                        assert(k == entries.len());
                    },
                    None => {},
                }
            },
        }
    } else {
        match entry_index(entries, s) {
            Some(i) => {
                match entry_index(step.entries, s) {
                    Some(k) => {
                        let k0 = if k < i { k } else { k + 1 };
                        assert(step.entries[k] == entries[k0]);
                    },
                    None => {},
                }
            },
            None => {},
        }
    }
}

/// A request about one crate leaves every other crate's count as it was.
pub proof fn law_other_crates_unchanged(
    entries: Seq<(CrateSpecifierView, u32)>,
    max_attempts: u32,
    s: CrateSpecifierView,
    other: CrateSpecifierView,
    retryable: bool,
)
    requires
        entries_wf(entries, max_attempts),
        other != s,
    ensures
        attempts_of(retry_step(entries, max_attempts, s, retryable).entries, other)
            == attempts_of(entries, other),
{
    let step = retry_step(entries, max_attempts, s, retryable);
    lemma_entry_index(entries, s);
    lemma_entry_index(entries, other);
    lemma_entry_index(step.entries, other);
    if retryable {
        match entry_index(entries, s) {
            Some(i) => {
                match entry_index(entries, other) {
                    Some(o) => {
                        assert(o != i);
                        if step.decision is Retry {
                            assert(step.entries[o] == entries[o]);
                            match entry_index(step.entries, other) {
                                Some(k) => { assert(k == o); },
                                None => {},
                            }
                        } else {
                            let o2 = if o < i { o } else { o - 1 };
                            assert(step.entries[o2] == entries[o]);
                            match entry_index(step.entries, other) {
                                Some(k) => {
                                    let k0 = if k < i { k } else { k + 1 };
                                    assert(step.entries[k] == entries[k0]);
                                    assert(k == o2);
                                },
                                None => {},
                            }
                        }
                    },
                    None => {
                        match entry_index(step.entries, other) {
                            Some(k) => {
                                if step.decision is Retry {
                                    assert(step.entries[k] == entries[k]);
                                } else {
                                    let k0 = if k < i { k } else { k + 1 };
                                    assert(step.entries[k] == entries[k0]);
                                }
                            },
                            None => {},
                        }
                    },
                }
            },
            None => {
                match entry_index(entries, other) {
                    Some(o) => {
                        if step.decision is Retry {
                            assert(step.entries[o] == entries[o]);
                            match entry_index(step.entries, other) {
                                Some(k) => { assert(k == o); },
                                None => {},
                            }
                        }
                    },
                    None => {
                        match entry_index(step.entries, other) {
                            Some(k) => {
                                if step.decision is Retry && k == entries.len() {
                                    assert(step.entries[k].0 == s);
                                } else {
                                    assert(step.entries[k] == entries[k]);
                                }
                            },
                            None => {},
                        }
                    },
                }
            },
        }
    }
}

/// A request keeps the coordinator's invariant.
proof fn lemma_step_keeps_wf(
    entries: Seq<(CrateSpecifierView, u32)>,
    max_attempts: u32,
    s: CrateSpecifierView,
)
    requires
        entries_wf(entries, max_attempts),
    ensures
        entries_wf(retry_step(entries, max_attempts, s, true).entries, max_attempts),
{
    lemma_entry_index(entries, s);
    let step = retry_step(entries, max_attempts, s, true);
    let e2 = step.entries;
    match entry_index(entries, s) {
        Some(i) => {
            if step.decision is GaveUp {
                assert forall|a: int, b: int|
                    0 <= a < e2.len() && 0 <= b < e2.len() && a != b implies e2[a].0 != e2[b].0 by {
                    let a0 = if a < i { a } else { a + 1 };
                    let b0 = if b < i { b } else { b + 1 };
                    assert(e2[a] == entries[a0]);
                    assert(e2[b] == entries[b0]);
                }
                assert forall|a: int| 0 <= a < e2.len() implies 1 <= #[trigger] e2[a].1
                    <= max_attempts by {
                    let a0 = if a < i { a } else { a + 1 };
                    assert(e2[a] == entries[a0]);
                }
            } else {
                assert forall|a: int| 0 <= a < e2.len() implies 1 <= #[trigger] e2[a].1
                    <= max_attempts by {
                    if a != i {
                        assert(e2[a] == entries[a]);
                    }
                }
            }
        },
        None => {
            if step.decision is Retry {
                assert forall|a: int| 0 <= a < e2.len() implies 1 <= #[trigger] e2[a].1
                    <= max_attempts by {
                    if a < entries.len() {
                        assert(e2[a] == entries[a]);
                    }
                }
            }
        },
    }
}

} // verus!
