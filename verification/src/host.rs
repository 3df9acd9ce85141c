//! What the host's subsystems report back to the bridge.
//!
//! The executor, the router and the query store are the host's. The bridge
//! hands them a request and is handed one of these values in return.

use crate::codec::Response;
use crate::weight::Weight;
use vstd::prelude::*;

verus! {

/// How the executor fared with a message.
#[derive(Clone, Copy, Debug, PartialEq, Eq, Structural)]
pub enum Outcome {
    /// Execution completed; the given weight was used.
    Complete(Weight),
    /// Execution started but did not complete; the given weight was used.
    Incomplete(Weight),
    /// Execution did not start.
    Error,
}

impl Outcome {
    /// The weight that the attempt used: none where it did not start.
    pub open spec fn spec_weight_used(self) -> Weight {
        match self {
            Outcome::Complete(used) => used,
            Outcome::Incomplete(used) => used,
            Outcome::Error => Weight::spec_zero(),
        }
    }

    /// Whether the message ran to its end.
    pub open spec fn spec_is_complete(self) -> bool {
        self is Complete
    }

    /// What a dispatch to the executor amounts to, where the host reports
    /// whether the dispatch succeeded and, if it knows, the weight used. A
    /// dispatch that reports no weight has used all that was quoted.
    pub open spec fn spec_from_dispatch(
        completed: bool,
        actual: Option<Weight>,
        quoted: Weight,
    ) -> Outcome {
        let used = match actual {
            Some(used) => used,
            None => quoted,
        };
        if completed {
            Outcome::Complete(used)
        } else {
            Outcome::Incomplete(used)
        }
    }

    /// Reads the result of a dispatch to the executor as an outcome.
    pub fn from_dispatch(completed: bool, actual: Option<Weight>, quoted: Weight) -> (outcome:
        Outcome)
        ensures
            outcome == Outcome::spec_from_dispatch(completed, actual, quoted),
            outcome.spec_is_complete() == completed,
            actual is None ==> outcome.spec_weight_used() == quoted,
    {
        let used = match actual {
            Some(used) => used,
            None => quoted,
        };
        if completed {
            Outcome::Complete(used)
        } else {
            Outcome::Incomplete(used)
        }
    }

    #[verifier::when_used_as_spec(spec_weight_used)]
    pub fn weight_used(self) -> (used: Weight)
        ensures
            used == self.spec_weight_used(),
    {
        match self {
            Outcome::Complete(used) => used,
            Outcome::Incomplete(used) => used,
            Outcome::Error => Weight::zero(),
        }
    }

    #[verifier::when_used_as_spec(spec_is_complete)]
    pub fn is_complete(self) -> (complete: bool)
        ensures
            complete == self.spec_is_complete(),
    {
        match self {
            Outcome::Complete(_) => true,
            _ => false,
        }
    }
}

/// What the query store knows of a query at the moment it is polled.
#[derive(Debug)]
pub enum QueryResponseStatus {
    /// The response has arrived, at the given block; polling has consumed it.
    Ready { response: Response, at: u32 },
    /// The response is awaited until the given block.
    Pending { timeout: u32 },
    /// The response arrived in a version that cannot be read.
    UnexpectedVersion,
    /// No such query: it never existed, or its response was taken before.
    NotFound,
}

/// A query's status, as plain values.
pub enum QueryResponseStatusView {
    Ready { response: Seq<u8>, at: u32 },
    Pending { timeout: u32 },
    UnexpectedVersion,
    NotFound,
}

impl View for QueryResponseStatus {
    type V = QueryResponseStatusView;

    open spec fn view(&self) -> QueryResponseStatusView {
        match *self {
            QueryResponseStatus::Ready { response, at } => QueryResponseStatusView::Ready {
                response: response@,
                at,
            },
            QueryResponseStatus::Pending { timeout } => QueryResponseStatusView::Pending {
                timeout,
            },
            QueryResponseStatus::UnexpectedVersion => QueryResponseStatusView::UnexpectedVersion,
            QueryResponseStatus::NotFound => QueryResponseStatusView::NotFound,
        }
    }
}

} // verus!
