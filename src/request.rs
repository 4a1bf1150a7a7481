use vstd::prelude::*;
use crate::model::{AggregateResult, LookupError};

verus! {

/// Where the user's request stands.
#[derive(Debug)]
pub enum RequestState {
    Idle,
    InFlight { id: u64, name: String },
    Completed(AggregateResult),
    Failed(LookupError),
}

/// The single-flight request machine: at most one aggregation runs at a time,
/// and its outcome is kept for every redraw.
#[derive(Debug)]
pub struct RequestMachine {
    pub state: RequestState,
    pub next_id: u64,
    /// The last successful result, kept while a newer request is in flight or
    /// has failed; `None` while the state itself holds the latest result.
    pub previous: Option<AggregateResult>,
}

/// The identifier that follows `id`, wrapping at the largest value.
pub open spec fn following_id(id: u64) -> u64 {
    if id == u64::MAX {
        0
    } else {
        (id + 1) as u64
    }
}

/// The identifier that a start hands out, or `None` while a request is in flight.
pub open spec fn start_outcome(m: RequestMachine) -> Option<u64> {
    match m.state {
        RequestState::InFlight { .. } => None,
        _ => Some(m.next_id),
    }
}

/// The machine after a start for `name`: unchanged while a request is in flight.
pub open spec fn after_start(m: RequestMachine, name: String) -> RequestMachine {
    match m.state {
        RequestState::InFlight { .. } => m,
        _ => RequestMachine {
            state: RequestState::InFlight { id: m.next_id, name },
            next_id: following_id(m.next_id),
            previous: match m.state {
                RequestState::Completed(res) => Some(res),
                _ => m.previous,
            },
        },
    }
}

/// The latest successful result that the machine holds, if any.
pub open spec fn latest_of(m: RequestMachine) -> Option<AggregateResult> {
    match m.state {
        RequestState::Completed(res) => Some(res),
        _ => m.previous,
    }
}

/// Whether the outcome of request `id` is the one that the machine waits for.
pub open spec fn awaits(m: RequestMachine, id: u64) -> bool {
    m.state matches RequestState::InFlight { id: cur, .. } && cur == id
}

/// The machine after the outcome of request `id`: unchanged unless it waits for it.
pub open spec fn after_finish(
    m: RequestMachine,
    id: u64,
    outcome: Result<AggregateResult, LookupError>,
) -> RequestMachine {
    if awaits(m, id) {
        RequestMachine {
            state: match outcome {
                Ok(res) => RequestState::Completed(res),
                Err(e) => RequestState::Failed(e),
            },
            next_id: m.next_id,
            previous: match outcome {
                Ok(_) => None,
                Err(_) => m.previous,
            },
        }
    } else {
        m
    }
}

impl RequestMachine {
    /// A machine with no request made yet.
    pub fn new() -> (r: RequestMachine)
        ensures
            r.state is Idle,
            r.next_id == 0,
            r.previous.is_none(),
    {
        RequestMachine { state: RequestState::Idle, next_id: 0, previous: None }
    }

    /// The latest successful result, if any request has succeeded.
    pub fn latest_result(&self) -> (r: Option<&AggregateResult>)
        ensures
            r.is_some() == latest_of(*self).is_some(),
            r matches Some(res) ==> latest_of(*self) == Some(*res),
    {
        match &self.state {
            RequestState::Completed(res) => Some(res),
            _ => match &self.previous {
                Some(res) => Some(res),
                None => None,
            },
        }
    }

    pub fn is_in_flight(&self) -> (r: bool)
        ensures
            r == (self.state is InFlight),
    {
        match self.state {
            RequestState::InFlight { .. } => true,
            _ => false,
        }
    }

    /// Starts a request for `name` and returns its identifier, unless one is
    /// already in flight: then nothing changes and `None` is returned.
    pub fn start_request(&mut self, name: String) -> (r: Option<u64>)
        ensures
            r == start_outcome(*old(self)),
            *final(self) == after_start(*old(self), name),
    {
        if self.is_in_flight() {
            None
        } else {
            let id = self.next_id;
            let mut replaced = RequestState::InFlight { id, name };
            std::mem::swap(&mut self.state, &mut replaced);
            match replaced {
                RequestState::Completed(res) => {
                    self.previous = Some(res);
                },
                _ => {},
            }
            self.next_id = if id == u64::MAX {
                0
            } else {
                id + 1
            };
            Some(id)
        }
    }

    /// Records the outcome of request `id`; returns whether the machine waited for it.
    pub fn finish(&mut self, id: u64, outcome: Result<AggregateResult, LookupError>) -> (r: bool)
        ensures
            r == awaits(*old(self), id),
            *final(self) == after_finish(*old(self), id, outcome),
    {
        let waits = match &self.state {
            RequestState::InFlight { id: cur, .. } => *cur == id,
            _ => false,
        };
        if waits {
            match outcome {
                Ok(res) => {
                    self.state = RequestState::Completed(res);
                    self.previous = None;
                },
                Err(e) => {
                    self.state = RequestState::Failed(e);
                },
            }
        }
        waits
    }
}

/// Single flight: once a start has been issued, a second start issued before the
/// outcome arrives hands out no identifier and leaves the machine as it was, so
/// exactly one aggregation runs for the two.
pub proof fn law_single_flight(m: RequestMachine, first: String, second: String)
    ensures
        start_outcome(after_start(m, first)).is_none(),
        after_start(after_start(m, first), second) == after_start(m, first),
        start_outcome(m).is_some() ==> after_start(m, first).state is InFlight,
{
}

/// A failed request leaves the latest successful result as it was, and a
/// successful one replaces it.
pub proof fn law_failure_keeps_result(
    m: RequestMachine,
    name: String,
    outcome: Result<AggregateResult, LookupError>,
)
    requires
        !(m.state is InFlight),
    ensures
        ({
            let started = after_start(m, name);
            let done = after_finish(started, m.next_id, outcome);
            &&& outcome is Err ==> latest_of(done) == latest_of(m)
            &&& outcome matches Ok(res) ==> latest_of(done) == Some(res)
        }),
{
}

} // verus!
