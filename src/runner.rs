use vstd::prelude::*;
use vstd::string::StringExecFns;

use crate::playbook::Playbook;
use crate::status::{ClusterError, EngineOutcome, Status, spec_status_of, status_of};

verus! {

/// What the caller is to do next.
#[derive(Debug, PartialEq, Eq)]
pub enum Action {
    /// Write the playbook out, log `launch_message`, and run the engine on it
    /// once; then report the outcome with `Execution::on_outcome`.
    Launch(Playbook),
    /// The invocation is over, with this status.
    Finish(Status),
}

/// The status of a run whose engine outcomes were `outs`, in order: the first
/// failure among them, or success where there is none.
pub open spec fn aggregate_status(outs: Seq<EngineOutcome>) -> Status
    decreases outs.len(),
{
    if outs.len() == 0 {
        Ok(())
    } else if spec_status_of(outs[0]) is Err {
        spec_status_of(outs[0])
    } else {
        aggregate_status(outs.drop_first())
    }
}

/// Every outcome in `outs` is a success.
pub open spec fn all_succeeded(outs: Seq<EngineOutcome>) -> bool {
    forall|i: int| 0 <= i < outs.len() ==> spec_status_of(#[trigger] outs[i]) is Ok
}

/// A plan being run: playbooks launched one at a time, in order, stopping at
/// the first failure.
pub struct Execution {
    entries: Vec<Playbook>,
    launched: usize,
    result: Option<Status>,
    outcomes: Ghost<Seq<EngineOutcome>>,
}

impl Execution {
    /// The playbooks of the plan, in the order they run.
    pub closed spec fn entries(&self) -> Seq<Playbook> {
        self.entries@
    }

    /// How many engine runs have been asked for so far.
    pub closed spec fn launched(&self) -> nat {
        self.launched as nat
    }

    /// The outcomes reported so far, in order.
    pub closed spec fn outcomes(&self) -> Seq<EngineOutcome> {
        self.outcomes@
    }

    /// The final status, once the run is over.
    pub closed spec fn result(&self) -> Option<Status> {
        self.result
    }

    pub open spec fn is_finished(&self) -> bool {
        self.result() is Some
    }

    /// The invariant of every state: the playbooks launched are a prefix of
    /// the plan; all outcomes but the last succeeded; while running, exactly
    /// one launch awaits its outcome; once finished, every launch has its
    /// outcome, the status is the first failure or success, and success means
    /// the whole plan ran.
    pub open spec fn wf(&self) -> bool {
        let outs = self.outcomes();
        &&& self.launched() <= self.entries().len()
        &&& outs.len() > 0 ==> all_succeeded(outs.drop_last())
        &&& match self.result() {
            None => outs.len() + 1 == self.launched() && all_succeeded(outs),
            Some(st) => {
                &&& outs.len() == self.launched()
                &&& st == aggregate_status(outs)
                &&& st is Ok ==> self.launched() == self.entries().len() && all_succeeded(outs)
                &&& st is Err ==> outs.len() > 0 && st == spec_status_of(outs.last())
            },
        }
    }

    /// `self` is a run of `entries` that has just begun, and `a` is its first
    /// action: the first playbook, or success at once for an empty plan.
    pub open spec fn started_with(&self, entries: Seq<Playbook>, a: Action) -> bool {
        &&& self.wf()
        &&& self.entries() == entries
        &&& self.outcomes() == Seq::<EngineOutcome>::empty()
        &&& if entries.len() == 0 {
            self.launched() == 0 && self.result() == Some(Ok::<(), ClusterError>(()))
                && a == Action::Finish(Ok(()))
        } else {
            self.launched() == 1 && self.result() is None && a == Action::Launch(entries[0])
        }
    }

    /// Begins running `entries`.
    pub fn start(entries: Vec<Playbook>) -> (r: (Execution, Action))
        ensures
            r.0.started_with(entries@, r.1),
    {
        if entries.len() == 0 {
            let e = Execution { entries, launched: 0, result: Some(Ok(())), outcomes: Ghost(Seq::empty()) };
            (e, Action::Finish(Ok(())))
        } else {
            let first = entries[0];
            let e = Execution { entries, launched: 1, result: None, outcomes: Ghost(Seq::empty()) };
            (e, Action::Launch(first))
        }
    }

    /// Takes the outcome of the playbook launched last and says what comes
    /// next: the following playbook after a success, or the end of the run
    /// with the first failure, or with success after the last playbook.
    pub fn on_outcome(&mut self, o: EngineOutcome) -> (a: Action)
        requires
            old(self).wf(),
            !old(self).is_finished(),
        ensures
            final(self).wf(),
            final(self).entries() == old(self).entries(),
            final(self).outcomes() == old(self).outcomes().push(o),
            match spec_status_of(o) {
                Err(e) => {
                    &&& a == Action::Finish(Err(e))
                    &&& final(self).result() == Some(Err::<(), ClusterError>(e))
                    &&& final(self).launched() == old(self).launched()
                },
                Ok(()) => if old(self).launched() < old(self).entries().len() {
                    &&& a == Action::Launch(old(self).entries()[old(self).launched() as int])
                    &&& final(self).result() is None
                    &&& final(self).launched() == old(self).launched() + 1
                } else {
                    &&& a == Action::Finish(Ok(()))
                    &&& final(self).result() == Some(Ok::<(), ClusterError>(()))
                    &&& final(self).launched() == old(self).launched()
                },
            },
    {
        let ghost outs0 = self.outcomes@;
        proof {
            lemma_aggregate_status_push(outs0, o);
        }
        self.outcomes = Ghost(self.outcomes@.push(o));
        assert(self.outcomes@.drop_last() =~= outs0);
        match status_of(o) {
            Err(e) => {
                self.result = Some(status_of(o));
                Action::Finish(Err(e))
            },
            Ok(()) => {
                if self.launched < self.entries.len() {
                    let next = self.entries[self.launched];
                    self.launched = self.launched + 1;
                    Action::Launch(next)
                } else {
                    self.result = Some(Ok(()));
                    Action::Finish(Ok(()))
                }
            },
        }
    }
}

/// A finished run launched the engine once per reported outcome and never
/// beyond its plan. Its status is success only when every playbook of the
/// plan ran and succeeded; otherwise it is the status of the first failure,
/// which is the last outcome: nothing was launched after it.
pub proof fn lemma_finished_run(e: &Execution)
    requires
        e.wf(),
        e.is_finished(),
    ensures
        e.launched() == e.outcomes().len(),
        e.launched() <= e.entries().len(),
        e.result() == Some(aggregate_status(e.outcomes())),
        e.result() == Some(Ok::<(), ClusterError>(())) ==> e.launched() == e.entries().len()
            && all_succeeded(e.outcomes()),
        e.result() matches Some(Err(err)) ==> {
            let k = e.outcomes().len() - 1;
            &&& k >= 0
            &&& spec_status_of(e.outcomes()[k]) == Err::<(), ClusterError>(err)
            &&& forall|j: int| 0 <= j < k ==> spec_status_of(#[trigger] e.outcomes()[j]) is Ok
        },
{
    let outs = e.outcomes();
    if outs.len() > 0 {
        assert forall|j: int| 0 <= j < outs.len() - 1 implies spec_status_of(
            #[trigger] outs[j],
        ) is Ok by {
            assert(outs.drop_last()[j] == outs[j]);
        }
    }
}

/// The line logged before the engine is run on `p`.
pub open spec fn spec_launch_message(p: Playbook) -> Seq<char> {
    "Running playbook '"@ + p.spec_name() + "'"@
}

pub fn launch_message(p: Playbook) -> (r: String)
    ensures
        r@ == spec_launch_message(p),
{
    let mut m = String::from_str("Running playbook '");
    m.append(p.name());
    m.append("'");
    m
}

/// One embedded playbook, to be run by the engine once.
#[derive(Clone, Copy, Debug, PartialEq, Eq, Structural)]
pub struct AnsiblePlaybook {
    pub playbook: Playbook,
}

impl AnsiblePlaybook {
    pub fn load(playbook: Playbook) -> (r: AnsiblePlaybook)
        ensures
            r.playbook == playbook,
    {
        AnsiblePlaybook { playbook }
    }

    /// Begins a run of this one playbook.
    pub fn run(&self) -> (r: (Execution, Action))
        ensures
            r.0.started_with(seq![self.playbook], r.1),
    {
        let entries = vec![self.playbook];
        assert(entries@ =~= seq![self.playbook]);
        Execution::start(entries)
    }
}

/// Playbooks run one after another as one operation, stopping at the first
/// failure. Playbooks can be added only until it is run.
pub struct AnsibleAggregatePlaybook {
    entries: Vec<Playbook>,
    started: bool,
}

impl AnsibleAggregatePlaybook {
    /// The playbooks added so far, in order.
    pub closed spec fn entries(&self) -> Seq<Playbook> {
        self.entries@
    }

    /// Whether `run` has been called.
    pub closed spec fn started(&self) -> bool {
        self.started
    }

    pub fn new() -> (r: AnsibleAggregatePlaybook)
        ensures
            r.entries() == Seq::<Playbook>::empty(),
            !r.started(),
    {
        AnsibleAggregatePlaybook { entries: Vec::new(), started: false }
    }

    /// Appends `p` at the tail; refused, leaving `self` as it was, once the
    /// aggregate has been run.
    pub fn add_playbook(&mut self, p: AnsiblePlaybook) -> (accepted: bool)
        ensures
            accepted == !old(self).started(),
            final(self).started() == old(self).started(),
            final(self).entries() == if accepted {
                old(self).entries().push(p.playbook)
            } else {
                old(self).entries()
            },
    {
        if self.started {
            false
        } else {
            self.entries.push(p.playbook);
            true
        }
    }

    pub fn len(&self) -> (r: usize)
        ensures
            r == self.entries().len(),
    {
        self.entries.len()
    }

    /// Begins running the playbooks in the order they were added; no more can
    /// be added afterwards. An empty aggregate finishes with success at once.
    pub fn run(&mut self) -> (r: (Execution, Action))
        ensures
            final(self).started(),
            final(self).entries() == old(self).entries(),
            r.0.started_with(old(self).entries(), r.1),
    {
        self.started = true;
        Execution::start(self.entries.clone())
    }
}

/// Pushing an outcome onto a run whose outcomes all succeeded gives the
/// status of that outcome.
proof fn lemma_aggregate_status_push(outs: Seq<EngineOutcome>, o: EngineOutcome)
    requires
        all_succeeded(outs),
    ensures
        aggregate_status(outs.push(o)) == spec_status_of(o),
    decreases outs.len(),
{
    if outs.len() == 0 {
        assert(outs.push(o).drop_first() =~= Seq::<EngineOutcome>::empty());
        assert(aggregate_status(Seq::<EngineOutcome>::empty()) == Ok::<(), ClusterError>(()));
    } else {
        assert(spec_status_of(outs[0]) is Ok);
        assert(outs.push(o)[0] == outs[0]);
        assert(outs.push(o).drop_first() =~= outs.drop_first().push(o));
        lemma_aggregate_status_push(outs.drop_first(), o);
    }
}

} // verus!
