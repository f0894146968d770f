//! The results that an asynchronous writer still has to report.

use std::collections::VecDeque;
use vstd::prelude::*;

verus! {

/// The receivers of results that have not been awaited, oldest first.
pub struct AsyncForwarder<R> {
    pending: VecDeque<R>,
}

impl<R> View for AsyncForwarder<R> {
    type V = Seq<R>;

    closed spec fn view(&self) -> Seq<R> {
        self.pending@
    }
}

impl<R> AsyncForwarder<R> {
    /// A writer that owes no result.
    pub fn new() -> (forwarder: AsyncForwarder<R>)
        ensures
            forwarder@ == Seq::<R>::empty(),
    {
        AsyncForwarder { pending: VecDeque::new() }
    }

    /// Notes the receiver of one more result.
    pub fn send(&mut self, receiver: R)
        ensures
            final(self)@ == old(self)@.push(receiver),
    {
        self.pending.push_back(receiver);
    }

    /// Waits for the results, oldest first, until all are in or one says that
    /// something went wrong. `receive` waits for one result: there is none
    /// where the writer went away.
    pub fn flush<E, F>(&mut self, receive: F) -> (result: Result<(), FlushError<E>>) where
        F: Fn(R) -> Option<Result<(), E>>,

        requires
            forall|receiver: R| #[trigger] call_requires(receive, (receiver,)),
        ensures
            match result {
                Ok(_) => final(self)@.len() == 0 && all_written(
                    receive,
                    old(self)@,
                    old(self)@.len() as int,
                ),
                Err(error) => exists|at: int|
                    0 <= at < old(self)@.len() && #[trigger] all_written(receive, old(self)@, at)
                        && call_ensures(receive, (old(self)@[at],), error.report())
                        && final(self)@ == old(self)@.skip(at + 1),
            },
    {
        let ghost all = self@;
        let ghost mut at: int = 0;
        assert(all.skip(0) =~= all);
        while self.pending.len() > 0
            invariant
                0 <= at <= all.len(),
                all == old(self)@,
                self@ == all.skip(at),
                all_written(receive, all, at),
                forall|receiver: R| #[trigger] call_requires(receive, (receiver,)),
            decreases self.pending@.len(),
        {
            if let Some(receiver) = self.pending.pop_front() {
                proof {
                    assert(receiver == all[at]);
                    assert(self@ =~= all.skip(at + 1));
                }
                let report = receive(receiver);
                match report {
                    None => {
                        return Err(FlushError::Dropped);
                    },
                    Some(Err(error)) => {
                        return Err(FlushError::Failed(error));
                    },
                    Some(Ok(done)) => {
                        proof {
                            assert(done == ());
                            assert(call_ensures(receive, (all[at],), Some(Ok::<(), E>(()))));
                            at = at + 1;
                        }
                    },
                }
            }
        }
        Ok(())
    }
}

/// Why a flush ended early.
#[derive(Debug)]
pub enum FlushError<E> {
    /// The writer went away before it reported.
    Dropped,
    /// A write failed.
    Failed(E),
}

impl<E> FlushError<E> {
    /// What was reported of the write that ended the flush.
    pub open spec fn report(self) -> Option<Result<(), E>> {
        match self {
            FlushError::Dropped => None,
            FlushError::Failed(error) => Some(Err(error)),
        }
    }
}

/// Whether the first `count` results were reported as written.
pub open spec fn all_written<R, E, F: Fn(R) -> Option<Result<(), E>>>(
    receive: F,
    receivers: Seq<R>,
    count: int,
) -> bool {
    forall|i: int|
        0 <= i < count ==> call_ensures(
            receive,
            (#[trigger] receivers[i],),
            Some(Ok::<(), E>(())),
        )
}

/// What is said where a write cannot be handed to the writer any more.
pub const FORWARDER_STOPPED: &'static str = "async activation forwarder stopped";

/// What is said where the writer went away before it reported.
pub const FORWARDER_DROPPED: &'static str = "async activation forwarder dropped result";

} // verus!
