//! The run driver: owns the fixed, ordered list of query specs and decides,
//! step by step, what the harness does next.
//!
//! The driver is a state machine. It first asks for the dataset to be loaded,
//! then for it to be registered under the fixed table name, then for each
//! query in declaration order to be executed; after the last it reports
//! success. Every step's outcome is handed back as one event — did the step
//! succeed? — and any failure aborts the whole remaining run: no retry, no
//! skipping to the next query. The work itself (the load, the SQL execution,
//! the printing) happens outside; the driver only dispatches it and reacts.

use vstd::prelude::*;

use crate::queries::QuerySpec;
use crate::queries::spec_table_name;

verus! {

/// Where the run stands.
#[derive(Debug, Clone, Copy, PartialEq, Eq)]
pub enum RunState {
    /// The dataset snapshot is not loaded yet.
    Load,
    /// The dataset is loaded and waits to be bound to the fixed table name.
    Register,
    /// Queries are running; `next` is the index of the next one to execute.
    Query { next: usize },
    /// Every query completed.
    Succeeded,
    /// A step failed; the remaining run is abandoned.
    Aborted,
}

/// What the harness is asked to do next.
pub enum RunAction {
    /// Load the snapshot `version` of the dataset at `location`.
    LoadTable { location: String, version: u64 },
    /// Bind the loaded dataset under `name` in the query context.
    RegisterTable { name: String },
    /// Execute one query and, if `print_result` says so, print its formatted
    /// result.
    ExecuteQuery { index: usize, sql: String, print_result: bool },
    /// Report the whole-run elapsed time and exit successfully.
    ReportSuccess,
    /// Terminate abnormally, with no result printed for the failed step.
    ReportFailure,
}

/// One step of the run: how a state reacts to its step's outcome. Success
/// walks Load, Register and the `n` queries in order and then stays succeeded;
/// any failure, and anything after a failure, is aborted.
pub open spec fn spec_advance(s: RunState, ok: bool, n: nat) -> RunState {
    match s {
        RunState::Load => if ok {
            RunState::Register
        } else {
            RunState::Aborted
        },
        RunState::Register => if !ok {
            RunState::Aborted
        } else if n == 0 {
            RunState::Succeeded
        } else {
            RunState::Query { next: 0 }
        },
        RunState::Query { next } => if !ok {
            RunState::Aborted
        } else if next + 1 < n {
            RunState::Query { next: (next + 1) as usize }
        } else {
            RunState::Succeeded
        },
        RunState::Succeeded => RunState::Succeeded,
        RunState::Aborted => RunState::Aborted,
    }
}

/// The state after reacting to a whole sequence of outcomes, oldest first.
pub open spec fn replay(s: RunState, events: Seq<bool>, n: nat) -> RunState
    decreases events.len(),
{
    if events.len() == 0 {
        s
    } else {
        replay(spec_advance(s, events[0], n), events.skip(1), n)
    }
}

/// An aborted run stays aborted, whatever else happens.
pub proof fn lemma_aborted_persists(events: Seq<bool>, n: nat)
    ensures
        replay(RunState::Aborted, events, n) == RunState::Aborted,
    decreases events.len(),
{
    if events.len() > 0 {
        lemma_aborted_persists(events.skip(1), n);
    }
}

/// Replaying a concatenation replays the parts in order.
pub proof fn lemma_replay_app(s: RunState, e1: Seq<bool>, e2: Seq<bool>, n: nat)
    ensures
        replay(s, e1 + e2, n) == replay(replay(s, e1, n), e2, n),
    decreases e1.len(),
{
    if e1.len() == 0 {
        assert(e1 + e2 =~= e2);
    } else {
        assert((e1 + e2).skip(1) =~= e1.skip(1) + e2);
        lemma_replay_app(spec_advance(s, e1[0], n), e1.skip(1), e2, n);
    }
}

/// Replaying one more event advances the state the prefix reached.
pub proof fn lemma_replay_snoc(s: RunState, events: Seq<bool>, n: nat, m: int)
    requires
        0 <= m < events.len(),
    ensures
        replay(s, events.take(m + 1), n) == spec_advance(
            replay(s, events.take(m), n),
            events[m],
            n,
        ),
{
    let e1 = seq![events[m]];
    assert(events.take(m + 1) =~= events.take(m) + e1);
    lemma_replay_app(s, events.take(m), e1, n);
    let before = replay(s, events.take(m), n);
    assert(e1.skip(1) =~= Seq::<bool>::empty());
    assert(replay(before, e1, n) == replay(spec_advance(before, e1[0], n), e1.skip(1), n));
    assert(replay(spec_advance(before, e1[0], n), Seq::<bool>::empty(), n) == spec_advance(
        before,
        e1[0],
        n,
    ));
}

/// Fatal halt: if step `k`'s outcome is a failure and the run is not already
/// complete when it lands, the run is aborted from that point on — after any
/// later prefix of events the state is the aborted one, so no further query
/// (and no registration) is ever dispatched, and the run ends abnormally.
pub proof fn lemma_fatal_halt(s: RunState, events: Seq<bool>, n: nat, k: int)
    requires
        0 <= k < events.len(),
        !events[k],
        !(replay(s, events.take(k), n) is Succeeded),
    ensures
        forall|m: int| k < m <= events.len() ==> replay(s, events.take(m), n) == RunState::Aborted,
        replay(s, events, n) == RunState::Aborted,
{
    lemma_replay_snoc(s, events, n, k);
    assert(replay(s, events.take(k + 1), n) == RunState::Aborted);
    assert forall|m: int| k < m <= events.len() implies replay(s, events.take(m), n)
        == RunState::Aborted by {
        assert(events.take(m) =~= events.take(k + 1) + events.subrange(k + 1, m));
        lemma_replay_app(s, events.take(k + 1), events.subrange(k + 1, m), n);
        lemma_aborted_persists(events.subrange(k + 1, m), n);
    }
    assert(events.take(events.len() as int) =~= events);
}

/// A failed load aborts the run before anything else happens: the very first
/// failure already puts the run in the aborted state, so the table is never
/// registered — the query context stays empty — and no query ever executes.
pub proof fn lemma_load_failure_halts(events: Seq<bool>, n: nat)
    requires
        events.len() >= 1,
        !events[0],
    ensures
        forall|m: int|
            1 <= m <= events.len() ==> replay(RunState::Load, events.take(m), n)
                == RunState::Aborted,
        replay(RunState::Load, events, n) == RunState::Aborted,
{
    assert(events.take(0) =~= Seq::<bool>::empty());
    lemma_fatal_halt(RunState::Load, events, n, 0);
}

/// The run driver: the fixed dataset binding, the fixed query list, and where
/// the run stands.
pub struct RunDriver {
    location: String,
    version: u64,
    specs: Vec<QuerySpec>,
    state: RunState,
}

impl RunDriver {
    /// The query specs, as name, SQL text and print flag.
    pub closed spec fn specs_seq(&self) -> Seq<(Seq<char>, Seq<char>, bool)> {
        self.specs@.map_values(|q: QuerySpec| q@)
    }

    pub closed spec fn spec_location(&self) -> Seq<char> {
        self.location@
    }

    pub closed spec fn spec_version(&self) -> u64 {
        self.version
    }

    pub closed spec fn state(&self) -> RunState {
        self.state
    }

    /// Well-formed: a query index in the state always points into the list.
    pub open spec fn wf(&self) -> bool {
        self.state() matches RunState::Query { next } ==> next < self.specs_seq().len()
    }

    /// A driver at the start of its run.
    pub fn new(location: String, version: u64, specs: Vec<QuerySpec>) -> (d: RunDriver)
        ensures
            d.wf(),
            d.state() == RunState::Load,
            d.specs_seq() == specs@.map_values(|q: QuerySpec| q@),
            d.spec_location() == location@,
            d.spec_version() == version,
    {
        RunDriver { location, version, specs, state: RunState::Load }
    }

    /// What to do in the current state: load, then register, then each query
    /// in order; report success after the last, and report failure in — and
    /// only in — the aborted state.
    pub fn next_action(&self) -> (a: RunAction)
        requires
            self.wf(),
        ensures
            match self.state() {
                RunState::Load => a matches RunAction::LoadTable { location, version }
                    && location@ == self.spec_location() && version == self.spec_version(),
                RunState::Register => a matches RunAction::RegisterTable { name } && name@
                    == spec_table_name(),
                RunState::Query { next } => a matches RunAction::ExecuteQuery {
                    index,
                    sql,
                    print_result,
                } && index == next && sql@ == self.specs_seq()[next as int].1 && print_result
                    == self.specs_seq()[next as int].2,
                RunState::Succeeded => a is ReportSuccess,
                RunState::Aborted => a is ReportFailure,
            },
    {
        match self.state {
            RunState::Load => RunAction::LoadTable {
                location: self.location.clone(),
                version: self.version,
            },
            RunState::Register => RunAction::RegisterTable { name: crate::queries::table_name() },
            RunState::Query { next } => RunAction::ExecuteQuery {
                index: next,
                sql: self.specs[next].sql.clone(),
                print_result: self.specs[next].print_result,
            },
            RunState::Succeeded => RunAction::ReportSuccess,
            RunState::Aborted => RunAction::ReportFailure,
        }
    }

    /// React to the outcome of the step the current state dispatched.
    pub fn advance(&mut self, ok: bool)
        requires
            old(self).wf(),
        ensures
            final(self).wf(),
            final(self).state() == spec_advance(old(self).state(), ok, old(self).specs_seq().len()),
            final(self).specs_seq() == old(self).specs_seq(),
            final(self).spec_location() == old(self).spec_location(),
            final(self).spec_version() == old(self).spec_version(),
    {
        let n = self.specs.len();
        let next_state: RunState = match self.state {
            RunState::Load => if ok {
                RunState::Register
            } else {
                RunState::Aborted
            },
            RunState::Register => if !ok {
                RunState::Aborted
            } else if n == 0 {
                RunState::Succeeded
            } else {
                RunState::Query { next: 0 }
            },
            RunState::Query { next } => if !ok {
                RunState::Aborted
            } else if next + 1 < n {
                RunState::Query { next: next + 1 }
            } else {
                RunState::Succeeded
            },
            RunState::Succeeded => RunState::Succeeded,
            RunState::Aborted => RunState::Aborted,
        };
        self.state = next_state;
    }

}

/// The standard run: the fixed dataset binding and the fixed query catalog,
/// ready to be driven.
pub fn standard_run() -> (d: RunDriver)
    ensures
        d.wf(),
        d.state() == RunState::Load,
        d.specs_seq() == crate::queries::spec_queries(),
        d.spec_location() == crate::queries::spec_dataset_location(),
        d.spec_version() == crate::queries::spec_dataset_version(),
{
    RunDriver::new(
        crate::queries::dataset_location(),
        crate::queries::dataset_version(),
        crate::queries::fixed_queries(),
    )
}

} // verus!
