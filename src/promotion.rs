//! Promotion of layers from the primary tier to the local tier: the set of
//! layers being promoted, admission into it, and the steps of one promotion.

use vstd::prelude::*;

verus! {

/// What the check for a layer's local copy found.
#[derive(Clone, Copy, Debug, PartialEq, Eq, Structural)]
pub enum LocalCheck {
    Present,
    Absent,
    /// The check itself failed; taken as present, so that a sick file system
    /// is not asked again and again.
    Failed,
}

/// The answer of the work set to a request to promote a layer.
#[derive(Clone, Copy, Debug, PartialEq, Eq, Structural)]
pub enum Admission {
    /// Another promotion of the layer is in flight.
    InFlight,
    /// The layer is (or may be) on the local tier already.
    AlreadyLocal,
    /// The caller now promotes the layer and must release it afterwards.
    Admitted,
}

pub open spec fn admission_spec(s: Set<[u32; 5]>, n: [u32; 5], check: LocalCheck) -> Admission {
    if s.contains(n) {
        Admission::InFlight
    } else if check != LocalCheck::Absent {
        Admission::AlreadyLocal
    } else {
        Admission::Admitted
    }
}

pub open spec fn admitted_set(s: Set<[u32; 5]>, n: [u32; 5], check: LocalCheck) -> Set<[u32; 5]> {
    if admission_spec(s, n, check) == Admission::Admitted {
        s.insert(n)
    } else {
        s
    }
}

/// The layers that this process is promoting.
pub struct WorkSet {
    names: Vec<[u32; 5]>,
}

impl View for WorkSet {
    type V = Set<[u32; 5]>;

    closed spec fn view(&self) -> Set<[u32; 5]> {
        self.names@.to_set()
    }
}

fn same_name(a: &[u32; 5], b: &[u32; 5]) -> (r: bool)
    ensures
        r == (*a == *b),
{
    let r = a[0] == b[0] && a[1] == b[1] && a[2] == b[2] && a[3] == b[3] && a[4] == b[4];
    if r {
        assert(*a =~= *b);
    }
    r
}

impl WorkSet {
    /// Each layer stands in the set at most once.
    pub closed spec fn wf(&self) -> bool {
        self.names@.no_duplicates()
    }

    pub fn new() -> (r: WorkSet)
        ensures
            r.wf(),
            r@ == Set::<[u32; 5]>::empty(),
    {
        let r = WorkSet { names: Vec::new() };
        assert(r@ =~= Set::<[u32; 5]>::empty());
        r
    }

    fn position(&self, n: &[u32; 5]) -> (r: Option<usize>)
        ensures
            r matches Some(i) ==> i < self.names@.len() && self.names@[i as int] == *n,
            r is None ==> !self.names@.contains(*n),
    {
        let mut i: usize = 0;
        while i < self.names.len()
            invariant
                0 <= i <= self.names@.len(),
                forall|j: int| 0 <= j < i ==> self.names@[j] != *n,
            decreases self.names@.len() - i,
        {
            if same_name(&self.names[i], n) {
                return Some(i);
            }
            i = i + 1;
        }
        None
    }

    /// Whether a promotion of `n` is in flight.
    pub fn is_in_flight(&self, n: [u32; 5]) -> (r: bool)
        ensures
            r == self@.contains(n),
    {
        self.position(&n).is_some()
    }

    /// Decides whether the caller may promote `n`, given what the check for
    /// its local copy found, and records the promotion when it may.
    pub fn try_enter(&mut self, n: [u32; 5], check: LocalCheck) -> (r: Admission)
        requires
            old(self).wf(),
        ensures
            final(self).wf(),
            r == admission_spec(old(self)@, n, check),
            final(self)@ == admitted_set(old(self)@, n, check),
    {
        if self.position(&n).is_some() {
            return Admission::InFlight;
        }
        match check {
            LocalCheck::Absent => {
                let ghost before = self.names@;
                self.names.push(n);
                proof {
                    assert(self.names@ == before.push(n));
                    assert(self.names@.to_set() =~= before.to_set().insert(n)) by {
                        assert forall|x: [u32; 5]| #[trigger]
                            self.names@.contains(x) <==> before.contains(x) || x == n by {
                            if self.names@.contains(x) && x != n {
                                let j = choose|j: int|
                                    0 <= j < self.names@.len() && self.names@[j] == x;
                                assert(j < before.len());
                                assert(before[j] == x);
                            }
                            if before.contains(x) {
                                let j = choose|j: int| 0 <= j < before.len() && before[j] == x;
                                assert(self.names@[j] == x);
                            }
                            if x == n {
                                assert(self.names@[before.len() as int] == n);
                            }
                        }
                    }
                }
                Admission::Admitted
            },
            _ => Admission::AlreadyLocal,
        }
    }

    /// Ends the promotion of `n`.
    pub fn release(&mut self, n: [u32; 5])
        requires
            old(self).wf(),
        ensures
            final(self).wf(),
            final(self)@ == old(self)@.remove(n),
    {
        match self.position(&n) {
            Some(i) => {
                let ghost before = self.names@;
                self.names.remove(i);
                proof {
                    assert(self.names@ == before.remove(i as int));
                    assert forall|a: int, b: int|
                        0 <= a < b < self.names@.len() implies self.names@[a]
                        != self.names@[b] by {
                        let a2 = if a < i { a } else { a + 1 };
                        let b2 = if b < i { b } else { b + 1 };
                        assert(self.names@[a] == before[a2]);
                        assert(self.names@[b] == before[b2]);
                    }
                    assert(self.names@.to_set() =~= before.to_set().remove(n)) by {
                        assert forall|x: [u32; 5]| #[trigger]
                            self.names@.contains(x) <==> before.contains(x) && x != n by {
                            if self.names@.contains(x) {
                                let j = choose|j: int|
                                    0 <= j < self.names@.len() && self.names@[j] == x;
                                let j2 = if j < i { j } else { j + 1 };
                                assert(before[j2] == x);
                                assert(j2 != i);
                            }
                            if before.contains(x) && x != n {
                                let j = choose|j: int| 0 <= j < before.len() && before[j] == x;
                                assert(j != i);
                                let j1 = if j < i { j } else { j - 1 };
                                assert(self.names@[j1] == x);
                            }
                        }
                    }
                }
            },
            None => {
                assert(self@ =~= self@.remove(n));
            },
        }
    }
}

/// One operation on the work set, as the tasks of a process issue them.
pub enum WorkEvent {
    Enter([u32; 5], LocalCheck),
    Release([u32; 5]),
}

/// The work set after a sequence of operations on an empty one.
pub open spec fn after(trace: Seq<WorkEvent>) -> Set<[u32; 5]>
    decreases trace.len(),
{
    if trace.len() == 0 {
        Set::empty()
    } else {
        let s = after(trace.drop_last());
        match trace.last() {
            WorkEvent::Enter(n, check) => admitted_set(s, n, check),
            WorkEvent::Release(n) => s.remove(n),
        }
    }
}

/// How many tasks were admitted to promote `n` and have not released it.
pub open spec fn holders(trace: Seq<WorkEvent>, n: [u32; 5]) -> int
    decreases trace.len(),
{
    if trace.len() == 0 {
        0
    } else {
        let h = holders(trace.drop_last(), n);
        match trace.last() {
            WorkEvent::Enter(m, check) => if m == n && admission_spec(
                after(trace.drop_last()),
                m,
                check,
            ) == Admission::Admitted {
                h + 1
            } else {
                h
            },
            WorkEvent::Release(m) => if m == n {
                h - 1
            } else {
                h
            },
        }
    }
}

/// Only a task that was admitted to promote a layer releases it, once.
pub open spec fn released_by_holders(trace: Seq<WorkEvent>) -> bool {
    forall|i: int|
        0 <= i < trace.len() ==> match #[trigger] trace[i] {
            WorkEvent::Release(m) => holders(trace.take(i), m) > 0,
            _ => true,
        }
}

/// Whatever the interleaving, at most one task at a time is past admission
/// for a given layer, and exactly one while the layer is in the work set.
pub proof fn lemma_at_most_one_promotion(trace: Seq<WorkEvent>, n: [u32; 5])
    requires
        released_by_holders(trace),
    ensures
        holders(trace, n) == (if after(trace).contains(n) { 1int } else { 0int }),
        0 <= holders(trace, n) <= 1,
    decreases trace.len(),
{
    if trace.len() > 0 {
        let prev = trace.drop_last();
        assert forall|i: int| 0 <= i < prev.len() implies match #[trigger] prev[i] {
            WorkEvent::Release(m) => holders(prev.take(i), m) > 0,
            _ => true,
        } by {
            assert(prev[i] == trace[i]);
            assert(prev.take(i) =~= trace.take(i));
        }
        lemma_at_most_one_promotion(prev, n);
        let last = trace.len() - 1;
        assert(trace.take(last) =~= prev);
        match trace.last() {
            WorkEvent::Release(m) => {
                assert(trace[last] == trace.last());
                if m == n {
                    lemma_at_most_one_promotion(prev, m);
                }
            },
            _ => {},
        }
    }
}

/// The step of a promotion that comes next.
#[derive(Clone, Copy, Debug, PartialEq, Eq, Structural)]
pub enum PromotionStep {
    /// Copy the primary file to the scratch tier.
    CopyToScratch,
    /// Create the fan-out directory on the local tier.
    CreateLocalDir,
    /// Rename the scratch file to its local path.
    RenameIntoLocal,
    /// Take the layer out of the work set; `failed` when an earlier step did.
    Release { failed: bool },
    Finished,
}

/// How many steps at most remain before a promotion is finished.
pub open spec fn steps_left(s: PromotionStep) -> nat {
    match s {
        PromotionStep::CopyToScratch => 4,
        PromotionStep::CreateLocalDir => 3,
        PromotionStep::RenameIntoLocal => 2,
        PromotionStep::Release { .. } => 1,
        PromotionStep::Finished => 0,
    }
}

/// The step that follows `step`, given whether `step` succeeded.
pub open spec fn promotion_step_spec(step: PromotionStep, succeeded: bool) -> PromotionStep {
    match step {
        PromotionStep::CopyToScratch => if succeeded {
            PromotionStep::CreateLocalDir
        } else {
            PromotionStep::Release { failed: true }
        },
        PromotionStep::CreateLocalDir => if succeeded {
            PromotionStep::RenameIntoLocal
        } else {
            PromotionStep::Release { failed: true }
        },
        PromotionStep::RenameIntoLocal => if succeeded {
            PromotionStep::Release { failed: false }
        } else {
            PromotionStep::Release { failed: true }
        },
        _ => PromotionStep::Finished,
    }
}

/// The step that follows `step`, given whether `step` succeeded. A failed
/// step goes straight to the release, so the layer leaves the work set on
/// every path.
pub fn next_promotion_step(step: PromotionStep, succeeded: bool) -> (r: PromotionStep)
    ensures
        r == promotion_step_spec(step, succeeded),
        step != PromotionStep::Finished ==> steps_left(r) < steps_left(step),
        r == PromotionStep::Finished ==> (step is Release || step == PromotionStep::Finished),
{
    match step {
        PromotionStep::CopyToScratch => if succeeded {
            PromotionStep::CreateLocalDir
        } else {
            PromotionStep::Release { failed: true }
        },
        PromotionStep::CreateLocalDir => if succeeded {
            PromotionStep::RenameIntoLocal
        } else {
            PromotionStep::Release { failed: true }
        },
        PromotionStep::RenameIntoLocal => if succeeded {
            PromotionStep::Release { failed: false }
        } else {
            PromotionStep::Release { failed: true }
        },
        _ => PromotionStep::Finished,
    }
}

/// Where a promotion stands after steps with these outcomes, from the copy.
pub open spec fn promotion_run(outcomes: Seq<bool>) -> PromotionStep
    decreases outcomes.len(),
{
    if outcomes.len() == 0 {
        PromotionStep::CopyToScratch
    } else {
        promotion_step_spec(promotion_run(outcomes.drop_last()), outcomes.last())
    }
}

/// Whatever the outcomes of its steps, a promotion renames into the local
/// tier only after the copy into scratch and the directory creation both
/// succeeded, reports success only when the rename did too, is finished
/// after at most four steps, and is finished only after it released the
/// layer from the work set.
pub proof fn lemma_promotion_runs(outcomes: Seq<bool>)
    ensures
        promotion_run(outcomes) == PromotionStep::CopyToScratch ==> outcomes.len() == 0,
        promotion_run(outcomes) == PromotionStep::CreateLocalDir ==> outcomes.len() == 1
            && outcomes[0],
        promotion_run(outcomes) == PromotionStep::RenameIntoLocal ==> outcomes.len() == 2
            && outcomes[0] && outcomes[1],
        promotion_run(outcomes) == (PromotionStep::Release { failed: false }) ==> outcomes.len()
            == 3 && outcomes[0] && outcomes[1] && outcomes[2],
        outcomes.len() <= 4 ==> steps_left(promotion_run(outcomes)) <= 4 - outcomes.len(),
        outcomes.len() >= 4 ==> promotion_run(outcomes) == PromotionStep::Finished,
        promotion_run(outcomes) == PromotionStep::Finished ==> exists|k: int|
            0 <= k < outcomes.len() && #[trigger] promotion_run(outcomes.take(k)) is Release,
    decreases outcomes.len(),
{
    if outcomes.len() > 0 {
        let prev = outcomes.drop_last();
        lemma_promotion_runs(prev);
        let k = outcomes.len() - 1;
        assert(outcomes.take(k) =~= prev);
        if promotion_run(outcomes) == PromotionStep::Finished {
            if promotion_run(prev) == PromotionStep::Finished {
                let j = choose|j: int| 0 <= j < prev.len() && #[trigger] promotion_run(prev.take(j)) is Release;
                assert(outcomes.take(j) =~= prev.take(j));
            } else {
                assert(promotion_run(outcomes.take(k)) is Release);
            }
        }
        if outcomes.len() >= 2 {
            assert(prev[0] == outcomes[0]);
        }
        if outcomes.len() >= 3 {
            assert(prev[1] == outcomes[1]);
        }
    }
}

} // verus!
