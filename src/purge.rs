use vstd::prelude::*;

use crate::command::push_arg;
use crate::vpn::{accepts, types_delete_word, VpnManager};

verus! {

/// Where a purge stands.
#[derive(Debug, Clone, Copy, PartialEq, Eq, Structural)]
pub enum PurgePhase {
    /// No profile is left to delete; the purge is over.
    NothingToDelete,
    /// Waiting for the answer to the yes/no question.
    AwaitingConfirmation,
    /// Waiting for the confirmation word to be typed.
    AwaitingDeleteWord,
    /// Deleting the profiles one by one.
    Deleting,
    /// The user declined; nothing was deleted and the purge is over.
    Cancelled,
    /// Every profile was tried; the purge is over.
    Completed,
}

/// What the caller does next for a purge.
#[derive(Debug)]
pub enum PurgeAction {
    ReportNothingToDelete,
    AskConfirmation { count: usize },
    AskDeleteWord,
    Delete { name: String },
    ReportCancelled,
    ReportSummary { deleted: usize, failed: usize },
}

/// The abstract state of a purge.
pub struct PurgeModel {
    pub targets: Seq<Seq<char>>,
    pub phase: PurgePhase,
    pub next: nat,
    pub deleted: nat,
    pub failed: nat,
}

/// `all` without the names that `except` holds (exact, case-sensitive), in
/// the order of `all`.
pub open spec fn without(all: Seq<Seq<char>>, except: Seq<Seq<char>>) -> Seq<Seq<char>>
    decreases all.len(),
{
    if all.len() == 0 {
        seq![]
    } else {
        let rest = without(all.drop_last(), except);
        if except.contains(all.last()) {
            rest
        } else {
            rest.push(all.last())
        }
    }
}

/// A purge of the profiles `all` but those in `except`: with nothing left it
/// is over at once; otherwise it asks first, unless `force` is set.
pub open spec fn purge_start(force: bool, all: Seq<Seq<char>>, except: Seq<Seq<char>>) -> PurgeModel {
    let targets = without(all, except);
    PurgeModel {
        targets,
        phase: if targets.len() == 0 {
            PurgePhase::NothingToDelete
        } else if force {
            PurgePhase::Deleting
        } else {
            PurgePhase::AwaitingConfirmation
        },
        next: 0,
        deleted: 0,
        failed: 0,
    }
}

/// The purge after the user answered `input` to the pending question. Only a
/// yes to the question and then the exact word go on to deleting; any other
/// answer cancels.
pub open spec fn purge_after_answer(m: PurgeModel, input: Seq<char>) -> PurgeModel {
    match m.phase {
        PurgePhase::AwaitingConfirmation => PurgeModel {
            phase: if accepts(input) {
                PurgePhase::AwaitingDeleteWord
            } else {
                PurgePhase::Cancelled
            },
            ..m
        },
        PurgePhase::AwaitingDeleteWord => PurgeModel {
            phase: if types_delete_word(input) {
                PurgePhase::Deleting
            } else {
                PurgePhase::Cancelled
            },
            ..m
        },
        _ => m,
    }
}

/// The purge after the deletion of the next profile succeeded (`ok`) or
/// failed. A failure is counted and the purge goes on with the next one.
pub open spec fn purge_after_deletion(m: PurgeModel, ok: bool) -> PurgeModel {
    if m.phase == PurgePhase::Deleting {
        PurgeModel {
            phase: if m.next + 1 == m.targets.len() {
                PurgePhase::Completed
            } else {
                PurgePhase::Deleting
            },
            next: m.next + 1,
            deleted: if ok {
                m.deleted + 1
            } else {
                m.deleted
            },
            failed: if ok {
                m.failed
            } else {
                m.failed + 1
            },
            ..m
        }
    } else {
        m
    }
}

/// `a` is what the caller does next in the purge `m`.
pub open spec fn purge_action(a: PurgeAction, m: PurgeModel) -> bool {
    match m.phase {
        PurgePhase::NothingToDelete => a is ReportNothingToDelete,
        PurgePhase::AwaitingConfirmation => a == (PurgeAction::AskConfirmation {
            count: m.targets.len() as usize,
        }),
        PurgePhase::AwaitingDeleteWord => a is AskDeleteWord,
        PurgePhase::Deleting => a is Delete && a->Delete_name@ == m.targets[m.next as int],
        PurgePhase::Cancelled => a is ReportCancelled,
        PurgePhase::Completed => a == (PurgeAction::ReportSummary {
            deleted: m.deleted as usize,
            failed: m.failed as usize,
        }),
    }
}

/// The purge is over: no question is pending and nothing is left to delete.
pub open spec fn purge_over(m: PurgeModel) -> bool {
    m.phase == PurgePhase::NothingToDelete || m.phase == PurgePhase::Cancelled || m.phase
        == PurgePhase::Completed
}

/// A purge that spares every name of the listing has nothing to delete: it
/// is over at once and its only action reports that, so no profile is
/// deleted.
pub proof fn lemma_sparing_all_deletes_nothing(
    force: bool,
    all: Seq<Seq<char>>,
    except: Seq<Seq<char>>,
)
    requires
        forall|i: int| 0 <= i < all.len() ==> except.contains(#[trigger] all[i]),
    ensures
        purge_start(force, all, except).targets.len() == 0,
        purge_start(force, all, except).phase == PurgePhase::NothingToDelete,
        purge_over(purge_start(force, all, except)),
        forall|a: PurgeAction| #[trigger]
            purge_action(a, purge_start(force, all, except)) ==> a is ReportNothingToDelete,
    decreases all.len(),
{
    if all.len() > 0 {
        let rest = all.drop_last();
        assert forall|i: int| 0 <= i < rest.len() implies except.contains(#[trigger] rest[i]) by {
            assert(rest[i] == all[i]);
        }
        lemma_sparing_all_deletes_nothing(force, rest, except);
        assert(except.contains(all[all.len() - 1]));
    }
}

/// Without force, nothing is deleted before two confirmations: a purge
/// starts by asking (or is over, with nothing to delete); an answer other
/// than yes to the question, or a yes followed by anything but the exact
/// word, ends it cancelled with no deletion.
pub proof fn lemma_declining_deletes_nothing(
    all: Seq<Seq<char>>,
    except: Seq<Seq<char>>,
    first: Seq<char>,
    second: Seq<char>,
)
    ensures
        ({
            let s0 = purge_start(false, all, except);
            &&& s0.phase == PurgePhase::AwaitingConfirmation || s0.phase
                == PurgePhase::NothingToDelete
            &&& s0.deleted == 0
        }),
        !accepts(first) ==> ({
            let s0 = purge_start(false, all, except);
            let s1 = purge_after_answer(s0, first);
            &&& purge_over(s1)
            &&& s1.next == 0
            &&& s1.deleted == 0
            &&& (s0.phase == PurgePhase::AwaitingConfirmation ==> s1.phase == PurgePhase::Cancelled)
        }),
        accepts(first) && !types_delete_word(second) ==> ({
            let s0 = purge_start(false, all, except);
            let s2 = purge_after_answer(purge_after_answer(s0, first), second);
            &&& purge_over(s2)
            &&& s2.next == 0
            &&& s2.deleted == 0
            &&& (s0.phase == PurgePhase::AwaitingConfirmation ==> s2.phase == PurgePhase::Cancelled)
        }),
{
}

/// A bulk deletion of the tool's own profiles, driven step by step: the
/// caller asks `next_action`, performs it, and reports back with `answer` or
/// `record_deletion`.
pub struct PurgeRun {
    targets: Vec<String>,
    phase: PurgePhase,
    next: usize,
    deleted: usize,
    failed: usize,
}

impl View for PurgeRun {
    type V = PurgeModel;

    closed spec fn view(&self) -> PurgeModel {
        PurgeModel {
            targets: self.targets.deep_view(),
            phase: self.phase,
            next: self.next as nat,
            deleted: self.deleted as nat,
            failed: self.failed as nat,
        }
    }
}

/// Whether `name` is one of `names`.
fn holds_name(names: &Vec<String>, name: &String) -> (r: bool)
    ensures
        r == names.deep_view().contains(name@),
{
    let mut i: usize = 0;
    while i < names.len()
        invariant
            i <= names.len(),
            forall|k: int| 0 <= k < i ==> names.deep_view()[k] != name@,
        decreases names.len() - i,
    {
        if names[i] == *name {
            assert(names.deep_view()[i as int] == name@);
            return true;
        }
        i = i + 1;
    }
    false
}

impl PurgeRun {
    /// The states that a purge can be in.
    pub open spec fn well_formed(&self) -> bool {
        let m = self@;
        &&& m.next <= m.targets.len()
        &&& m.deleted + m.failed == m.next
        &&& (m.phase == PurgePhase::NothingToDelete ==> m.targets.len() == 0)
        &&& (m.phase != PurgePhase::NothingToDelete ==> m.targets.len() > 0)
        &&& (m.phase == PurgePhase::Deleting ==> m.next < m.targets.len())
        &&& (m.phase == PurgePhase::Completed ==> m.next == m.targets.len())
        &&& (m.phase != PurgePhase::Deleting && m.phase != PurgePhase::Completed ==> m.next == 0)
    }

    /// The profiles of `all`, the tool's own ones in the registry's order,
    /// that a purge sparing `except` deletes.
    pub fn targets_of(all: &Vec<String>, except: &Vec<String>) -> (r: Vec<String>)
        ensures
            r.deep_view() == without(all.deep_view(), except.deep_view()),
    {
        let mut out: Vec<String> = Vec::new();
        let mut i: usize = 0;
        assert(all.deep_view().take(0) =~= seq![]);
        while i < all.len()
            invariant
                i <= all.len(),
                out.deep_view() == without(all.deep_view().take(i as int), except.deep_view()),
            decreases all.len() - i,
        {
            assert(all.deep_view().take(i + 1).drop_last() =~= all.deep_view().take(i as int));
            if !holds_name(except, &all[i]) {
                push_arg(&mut out, all[i].clone());
            }
            i = i + 1;
        }
        assert(all.deep_view().take(i as int) =~= all.deep_view());
        out
    }

    /// A purge of `all` but `except`; with `force` it deletes without asking.
    pub fn new(force: bool, all: &Vec<String>, except: &Vec<String>) -> (r: PurgeRun)
        ensures
            r@ == purge_start(force, all.deep_view(), except.deep_view()),
            r.well_formed(),
    {
        let targets = Self::targets_of(all, except);
        let phase = if targets.len() == 0 {
            PurgePhase::NothingToDelete
        } else if force {
            PurgePhase::Deleting
        } else {
            PurgePhase::AwaitingConfirmation
        };
        PurgeRun { targets, phase, next: 0, deleted: 0, failed: 0 }
    }

    /// The profiles the purge deletes, in order.
    pub fn targets(&self) -> (r: &Vec<String>)
        ensures
            r.deep_view() == self@.targets,
    {
        &self.targets
    }

    pub fn phase(&self) -> (r: PurgePhase)
        ensures
            r == self@.phase,
    {
        self.phase
    }

    /// How many profiles were deleted.
    pub fn deleted(&self) -> (r: usize)
        ensures
            r == self@.deleted,
    {
        self.deleted
    }

    /// How many deletions failed.
    pub fn failed(&self) -> (r: usize)
        ensures
            r == self@.failed,
    {
        self.failed
    }

    /// Whether the purge is over.
    pub fn is_over(&self) -> (r: bool)
        ensures
            r == purge_over(self@),
    {
        match self.phase {
            PurgePhase::NothingToDelete | PurgePhase::Cancelled | PurgePhase::Completed => true,
            _ => false,
        }
    }

    /// What the caller does next.
    pub fn next_action(&self) -> (r: PurgeAction)
        requires
            self.well_formed(),
        ensures
            purge_action(r, self@),
    {
        match self.phase {
            PurgePhase::NothingToDelete => PurgeAction::ReportNothingToDelete,
            PurgePhase::AwaitingConfirmation => PurgeAction::AskConfirmation {
                count: self.targets.len(),
            },
            PurgePhase::AwaitingDeleteWord => PurgeAction::AskDeleteWord,
            PurgePhase::Deleting => PurgeAction::Delete { name: self.targets[self.next].clone() },
            PurgePhase::Cancelled => PurgeAction::ReportCancelled,
            PurgePhase::Completed => PurgeAction::ReportSummary {
                deleted: self.deleted,
                failed: self.failed,
            },
        }
    }

    /// Hands over the user's answer to the pending question.
    pub fn answer(&mut self, input: &str)
        requires
            old(self).well_formed(),
            old(self)@.phase == PurgePhase::AwaitingConfirmation || old(self)@.phase
                == PurgePhase::AwaitingDeleteWord,
        ensures
            final(self)@ == purge_after_answer(old(self)@, input@),
            final(self).well_formed(),
    {
        match self.phase {
            PurgePhase::AwaitingConfirmation => {
                self.phase = if VpnManager::confirms(input) {
                    PurgePhase::AwaitingDeleteWord
                } else {
                    PurgePhase::Cancelled
                };
            },
            _ => {
                self.phase = if VpnManager::confirms_delete_word(input) {
                    PurgePhase::Deleting
                } else {
                    PurgePhase::Cancelled
                };
            },
        }
    }

    /// Hands over whether the deletion of the next profile succeeded.
    pub fn record_deletion(&mut self, ok: bool)
        requires
            old(self).well_formed(),
            old(self)@.phase == PurgePhase::Deleting,
        ensures
            final(self)@ == purge_after_deletion(old(self)@, ok),
            final(self).well_formed(),
    {
        let n = self.targets.len();
        assert(self@.targets.len() == n);
        if ok {
            self.deleted = self.deleted + 1;
        } else {
            self.failed = self.failed + 1;
        }
        self.next = self.next + 1;
        if self.next == n {
            self.phase = PurgePhase::Completed;
        }
    }
}

} // verus!
