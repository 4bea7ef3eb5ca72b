//! The monitoring orchestrator's bookkeeping: the result set of one run,
//! built from the outcome of each machine in request or inventory order.
use vstd::prelude::*;
use crate::gateway::{GatewayError, VmRecord};
use crate::model::{IssueKind, PowerState, SnapshotView, VmSnapshot};

verus! {

/// What became of one requested machine.
pub enum LookupOutcome {
    /// No machine of that name exists.
    NotFound,
    /// The machine exists but its evaluation failed.
    Skipped,
    /// The machine was evaluated.
    Evaluated(VmSnapshot),
}

/// What follows the lookup of a requested name.
pub enum LookupStep {
    /// Evaluate the machine found.
    Evaluate(VmRecord),
    /// Record this outcome; there is nothing to evaluate.
    Record(LookupOutcome),
}

/// Decides on the answer of a lookup by name: a machine found is evaluated,
/// a name that matches nothing is recorded as not found, and a failed lookup
/// skips that name only.
pub fn after_lookup(found: Result<Option<VmRecord>, GatewayError>) -> (r: LookupStep)
    ensures
        match found {
            Ok(Some(rec)) => r == LookupStep::Evaluate(rec),
            Ok(None) => r matches LookupStep::Record(LookupOutcome::NotFound),
            Err(_) => r matches LookupStep::Record(LookupOutcome::Skipped),
        },
{
    match found {
        Ok(Some(rec)) => LookupStep::Evaluate(rec),
        Ok(None) => LookupStep::Record(LookupOutcome::NotFound),
        Err(_) => LookupStep::Record(LookupOutcome::Skipped),
    }
}

/// Which machines a run covers.
#[derive(Clone, Copy, Debug, PartialEq, Eq, Structural)]
pub enum MonitoringMode {
    All,
    List,
}

impl MonitoringMode {
    pub open spec fn spec_name(self) -> Seq<char> {
        match self {
            MonitoringMode::All => "all"@,
            MonitoringMode::List => "list"@,
        }
    }

    pub fn name(&self) -> (r: String)
        ensures
            r@ == self.spec_name(),
    {
        match self {
            MonitoringMode::All => String::from_str("all"),
            MonitoringMode::List => String::from_str("list"),
        }
    }
}

/// The result set of one run.
pub struct MonitoringResults {
    pub vm_statuses: Vec<VmSnapshot>,
    pub vms_with_issues: Vec<VmSnapshot>,
    pub vms_not_found: Vec<String>,
}

pub struct ResultsView {
    pub statuses: Seq<SnapshotView>,
    pub with_issues: Seq<SnapshotView>,
    pub not_found: Seq<Seq<char>>,
}

pub open spec fn snapshots_view(v: Seq<VmSnapshot>) -> Seq<SnapshotView> {
    v.map_values(|s: VmSnapshot| s@)
}

pub open spec fn strings_view(v: Seq<String>) -> Seq<Seq<char>> {
    v.map_values(|s: String| s@)
}

impl View for MonitoringResults {
    type V = ResultsView;

    open spec fn view(&self) -> ResultsView {
        ResultsView {
            statuses: snapshots_view(self.vm_statuses@),
            with_issues: snapshots_view(self.vms_with_issues@),
            not_found: strings_view(self.vms_not_found@),
        }
    }
}

pub open spec fn empty_results() -> ResultsView {
    ResultsView { statuses: Seq::empty(), with_issues: Seq::empty(), not_found: Seq::empty() }
}

/// The result set after one more machine.
pub open spec fn after_outcome(r: ResultsView, name: Seq<char>, o: LookupOutcome) -> ResultsView {
    match o {
        LookupOutcome::NotFound => ResultsView { not_found: r.not_found.push(name), ..r },
        LookupOutcome::Skipped => r,
        LookupOutcome::Evaluated(s) => ResultsView {
            statuses: r.statuses.push(s@),
            with_issues: if s@.has_issues() {
                r.with_issues.push(s@)
            } else {
                r.with_issues
            },
            not_found: r.not_found,
        },
    }
}

/// The result set of a run over `names` whose machines had `outcomes`.
pub open spec fn run_results(names: Seq<Seq<char>>, outcomes: Seq<LookupOutcome>) -> ResultsView
    decreases outcomes.len(),
{
    if outcomes.len() == 0 {
        empty_results()
    } else {
        after_outcome(
            run_results(names.drop_last(), outcomes.drop_last()),
            names.last(),
            outcomes.last(),
        )
    }
}

/// The snapshots of the evaluated machines, in order.
pub open spec fn evaluated(outcomes: Seq<LookupOutcome>) -> Seq<SnapshotView>
    decreases outcomes.len(),
{
    if outcomes.len() == 0 {
        Seq::empty()
    } else {
        let prev = evaluated(outcomes.drop_last());
        match outcomes.last() {
            LookupOutcome::Evaluated(s) => prev.push(s@),
            _ => prev,
        }
    }
}

/// The snapshots that carry issues, in order.
pub open spec fn with_issues_of(s: Seq<SnapshotView>) -> Seq<SnapshotView>
    decreases s.len(),
{
    if s.len() == 0 {
        Seq::empty()
    } else {
        let prev = with_issues_of(s.drop_last());
        if s.last().has_issues() {
            prev.push(s.last())
        } else {
            prev
        }
    }
}

impl MonitoringResults {
    pub fn new() -> (r: MonitoringResults)
        ensures
            r@ == empty_results(),
    {
        let r = MonitoringResults {
            vm_statuses: Vec::new(),
            vms_with_issues: Vec::new(),
            vms_not_found: Vec::new(),
        };
        assert(r@.statuses =~= Seq::empty());
        assert(r@.with_issues =~= Seq::empty());
        assert(r@.not_found =~= Seq::empty());
        r
    }

    /// Adds the outcome of the machine requested as `name`. A snapshot with
    /// issues also joins the issue subset.
    pub fn record(&mut self, name: &str, outcome: LookupOutcome)
        ensures
            final(self)@ == after_outcome(old(self)@, name@, outcome),
    {
        let ghost o = outcome;
        match outcome {
            LookupOutcome::NotFound => {
                self.vms_not_found.push(String::from_str(name));
                assert(self@.not_found =~= old(self)@.not_found.push(name@));
            },
            LookupOutcome::Skipped => {},
            LookupOutcome::Evaluated(s) => {
                if s.has_issues() {
                    self.vms_with_issues.push(s.copy());
                    assert(self@.with_issues =~= old(self)@.with_issues.push(s@));
                }
                self.vm_statuses.push(s);
                assert(self@.statuses =~= old(self)@.statuses.push(s@));
            },
        }
        assert(self@.statuses =~= after_outcome(old(self)@, name@, o).statuses);
        assert(self@.with_issues =~= after_outcome(old(self)@, name@, o).with_issues);
        assert(self@.not_found =~= after_outcome(old(self)@, name@, o).not_found);
    }

    /// The whole run: `outcomes[i]` is what became of the machine requested
    /// as `names[i]`.
    pub fn from_outcomes(names: &Vec<String>, outcomes: Vec<LookupOutcome>) -> (r:
        MonitoringResults)
        requires
            names.len() == outcomes.len(),
        ensures
            r@ == run_results(strings_view(names@), outcomes@),
    {
        let mut r = MonitoringResults::new();
        let ghost all = outcomes@;
        let mut outs = outcomes;
        let mut i: usize = 0;
        while i < names.len()
            invariant
                i <= names.len(),
                names.len() == all.len(),
                outs@ == all.subrange(i as int, all.len() as int),
                r@ == run_results(
                    strings_view(names@).subrange(0, i as int),
                    all.subrange(0, i as int),
                ),
            decreases names.len() - i,
        {
            let o = outs.remove(0);
            assert(o == all[i as int]);
            assert(outs@ =~= all.subrange(i + 1, all.len() as int));
            let ghost before = r@;
            r.record(names[i].as_str(), o);
            assert(strings_view(names@).subrange(0, i + 1).drop_last() =~= strings_view(
                names@,
            ).subrange(0, i as int));
            assert(all.subrange(0, i + 1).drop_last() =~= all.subrange(0, i as int));
            i += 1;
        }
        assert(strings_view(names@).subrange(0, i as int) =~= strings_view(names@));
        assert(all.subrange(0, i as int) =~= all);
        r
    }

    /// The names of the machines with issues that count as critical: powered
    /// off, suspended, or without running tooling.
    pub fn critical_names(&self) -> (r: Vec<String>)
        ensures
            strings_view(r@) == critical_names_of(self@.with_issues),
    {
        let mut out: Vec<String> = Vec::new();
        let mut i: usize = 0;
        while i < self.vms_with_issues.len()
            invariant
                i <= self.vms_with_issues.len(),
                strings_view(out@) == critical_names_of(self@.with_issues.subrange(0, i as int)),
            decreases self.vms_with_issues.len() - i,
        {
            let ghost before = out@;
            let s = &self.vms_with_issues[i];
            assert(self@.with_issues.subrange(0, i + 1).drop_last() =~= self@.with_issues.subrange(
                0,
                i as int,
            ));
            if s.is_critical() {
                out.push(s.vm_name.clone());
                assert(strings_view(out@) =~= strings_view(before).push(s.vm_name@));
            }
            i += 1;
        }
        assert(self@.with_issues.subrange(0, i as int) =~= self@.with_issues);
        out
    }

    /// Exit status of a run that got this far: 2 where any machine has
    /// issues, else 1 where a report could not be written, else 0.
    pub fn exit_code(&self, export_failed: bool) -> (r: i32)
        ensures
            self@.with_issues.len() > 0 ==> r == 2,
            self@.with_issues.len() == 0 && export_failed ==> r == 1,
            self@.with_issues.len() == 0 && !export_failed ==> r == 0,
    {
        if self.vms_with_issues.len() > 0 {
            2
        } else if export_failed {
            1
        } else {
            0
        }
    }
}

pub open spec fn is_critical(s: SnapshotView) -> bool {
    s.power_state == PowerState::PoweredOff || s.power_state == PowerState::Suspended
        || s.issues.contains(IssueKind::ToolsNotRunning)
}

/// Names of the critical snapshots, in order.
pub open spec fn critical_names_of(s: Seq<SnapshotView>) -> Seq<Seq<char>>
    decreases s.len(),
{
    if s.len() == 0 {
        Seq::empty()
    } else {
        let prev = critical_names_of(s.drop_last());
        if is_critical(s.last()) {
            prev.push(s.last().vm_name)
        } else {
            prev
        }
    }
}

/// A run keeps the snapshot of every evaluated machine, in order, and looks
/// at no name to do so: a name requested twice is evaluated twice, and both
/// snapshots stand in the result set. Its issue subset keeps exactly the
/// snapshots with issues, in order.
pub proof fn lemma_run_keeps_every_evaluation(
    names: Seq<Seq<char>>,
    outcomes: Seq<LookupOutcome>,
)
    requires
        names.len() == outcomes.len(),
    ensures
        run_results(names, outcomes).statuses == evaluated(outcomes),
        run_results(names, outcomes).with_issues == with_issues_of(evaluated(outcomes)),
    decreases outcomes.len(),
{
    if outcomes.len() > 0 {
        lemma_run_keeps_every_evaluation(names.drop_last(), outcomes.drop_last());
        let prev = evaluated(outcomes.drop_last());
        match outcomes.last() {
            LookupOutcome::Evaluated(s) => {
                assert(prev.push(s@).drop_last() =~= prev);
            },
            _ => {},
        }
    }
}

/// Where every requested machine was found and evaluated, the result set
/// holds one snapshot per requested name, in request order, duplicates
/// included.
pub proof fn lemma_duplicate_names_evaluated_twice(
    names: Seq<Seq<char>>,
    outcomes: Seq<LookupOutcome>,
)
    requires
        names.len() == outcomes.len(),
        forall|k: int| 0 <= k < outcomes.len() ==> #[trigger] outcomes[k] is Evaluated,
    ensures
        run_results(names, outcomes).statuses.len() == names.len(),
        forall|k: int|
            0 <= k < outcomes.len() ==> (#[trigger] outcomes[k] matches LookupOutcome::Evaluated(s)
                && run_results(names, outcomes).statuses[k] == s@),
    decreases outcomes.len(),
{
    lemma_run_keeps_every_evaluation(names, outcomes);
    lemma_evaluated_all(outcomes);
}

proof fn lemma_evaluated_all(outcomes: Seq<LookupOutcome>)
    requires
        forall|k: int| 0 <= k < outcomes.len() ==> #[trigger] outcomes[k] is Evaluated,
    ensures
        evaluated(outcomes).len() == outcomes.len(),
        forall|k: int|
            0 <= k < outcomes.len() ==> (#[trigger] outcomes[k] matches LookupOutcome::Evaluated(s)
                && evaluated(outcomes)[k] == s@),
    decreases outcomes.len(),
{
    if outcomes.len() > 0 {
        let init = outcomes.drop_last();
        assert forall|k: int| 0 <= k < init.len() implies #[trigger] init[k] is Evaluated by {
            assert(init[k] == outcomes[k]);
        }
        lemma_evaluated_all(init);
        assert(outcomes[outcomes.len() - 1] is Evaluated);
        assert forall|k: int| 0 <= k < outcomes.len() implies (#[trigger] outcomes[k] matches LookupOutcome::Evaluated(s)
            && evaluated(outcomes)[k] == s@) by {
            if k < outcomes.len() - 1 {
                assert(init[k] == outcomes[k]);
            }
        }
    }
}

} // verus!
