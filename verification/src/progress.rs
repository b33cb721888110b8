//! A run taken one request at a time.
//!
//! The executor works against a database, so its work lies outside this
//! library. A [`MigrationRun`] hands the caller one request, waits to be told
//! how the executor fared with it, and hands out the next. Requests are never
//! overlapped, a failure of the executor is handed back as it came and ends
//! the run, and an abort is reported only after the requests that precede it.

use vstd::prelude::*;
use crate::migration_unit::{
    run_outcome, MigrationAbort, MigrationKind, MigrationUnit, RunOutcome, RunOutcomeView,
};

verus! {

/// What the caller is to do next.
#[derive(Debug)]
pub enum NextAction<E> {
    /// Have the executor perform this migration, then report how it went.
    Execute(MigrationKind),
    /// The run is done and no rule was broken. `no_changes` says that the
    /// shape of the object needed no change.
    Complete { no_changes: bool },
    /// The run is done because a rule was broken.
    Abort(MigrationAbort),
    /// The run is done because the executor failed; this is its error.
    Fail(E),
    /// The run had ended before.
    Closed,
}

/// The state of a run that is taken step by step.
pub struct MigrationRun {
    requests: Vec<MigrationKind>,
    no_changes: bool,
    abort: Option<MigrationAbort>,
    position: usize,
    closed: bool,
}

impl MigrationRun {
    #[verifier::type_invariant]
    spec fn position_within_requests(self) -> bool {
        self.position <= self.requests.len()
    }

    /// The outcome that the run works through.
    pub closed spec fn plan(&self) -> RunOutcomeView {
        match self.abort {
            Some(abort) => RunOutcomeView::Aborted { requests: self.requests@, abort: abort@ },
            None => RunOutcomeView::Completed {
                requests: self.requests@,
                no_changes: self.no_changes,
            },
        }
    }

    /// How many requests have been handed out.
    pub closed spec fn issued(&self) -> nat {
        self.position as nat
    }

    /// Whether the run has ended.
    pub closed spec fn is_closed(&self) -> bool {
        self.closed
    }

    /// Whether `action` is the end that `plan` calls for.
    pub open spec fn ends<E>(action: NextAction<E>, plan: RunOutcomeView) -> bool {
        match plan {
            RunOutcomeView::Completed { no_changes, .. } => action == (NextAction::<
                E,
            >::Complete { no_changes }),
            RunOutcomeView::Aborted { abort, .. } => action matches NextAction::Abort(reported)
                && reported@ == abort,
        }
    }

    /// Starts to work through an outcome.
    pub fn new(outcome: RunOutcome) -> (run: MigrationRun)
        ensures
            run.plan() == outcome@,
            run.issued() == 0,
            !run.is_closed(),
    {
        match outcome {
            RunOutcome::Completed { requests, no_changes } => MigrationRun {
                requests,
                no_changes,
                abort: None,
                position: 0,
                closed: false,
            },
            RunOutcome::Aborted { requests, abort } => MigrationRun {
                requests,
                no_changes: false,
                abort: Some(abort),
                position: 0,
                closed: false,
            },
        }
    }

    /// Takes the result of the request handed out last (`Ok` at the start)
    /// and says what to do next.
    ///
    /// A failure of the executor ends the run and comes back unchanged,
    /// whatever the state. Otherwise the requests of the plan are handed out
    /// in order, one per call, then the end that the plan calls for, and
    /// after that nothing.
    pub fn next<E>(&mut self, last: Result<(), E>) -> (action: NextAction<E>)
        ensures
            final(self).plan() == old(self).plan(),
            final(self).issued() == old(self).issued() + (if action is Execute {
                1nat
            } else {
                0nat
            }),
            final(self).is_closed() == !(action is Execute),
            match last {
                Err(error) => action == NextAction::Fail(error),
                Ok(_) => if old(self).is_closed() {
                    action == NextAction::<E>::Closed
                } else if old(self).issued() < old(self).plan().requests().len() {
                    action == NextAction::<E>::Execute(
                        old(self).plan().requests()[old(self).issued() as int],
                    )
                } else {
                    Self::ends(action, old(self).plan())
                },
            },
    {
        proof {
            use_type_invariant(&*self);
        }
        match last {
            Err(error) => {
                self.closed = true;
                NextAction::Fail(error)
            },
            Ok(_) => {
                if self.closed {
                    NextAction::Closed
                } else if self.position < self.requests.len() {
                    let kind = self.requests[self.position];
                    self.position = self.position + 1;
                    NextAction::Execute(kind)
                } else {
                    self.closed = true;
                    match &self.abort {
                        Some(abort) => NextAction::Abort(
                            MigrationAbort {
                                kind: abort.kind,
                                object_name: abort.object_name.clone(),
                                object_type: abort.object_type,
                                hint: abort.hint,
                            },
                        ),
                        None => NextAction::Complete { no_changes: self.no_changes },
                    }
                }
            },
        }
    }
}

impl MigrationUnit {
    /// Decides the run and starts to work through it.
    pub fn start(&self) -> (run: MigrationRun)
        ensures
            run.plan() == run_outcome(self@),
            run.issued() == 0,
            !run.is_closed(),
    {
        MigrationRun::new(self.run())
    }
}

} // verus!
