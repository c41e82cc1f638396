//! Loading the mosques of a region from the Overpass API: which mirror to ask
//! next after a failed request, and how a returned element becomes a mosque.

use vstd::prelude::*;

use crate::models::mosque::Tags;
use crate::text::same_text;

verus! {

/// Requests made to one mirror before moving on to the next.
pub const ATTEMPTS_PER_ENDPOINT: u32 = 2;

/// How one request to a mirror went.
#[derive(Clone, Copy, Debug, PartialEq, Eq, Structural)]
pub enum AttemptOutcome {
    /// The mirror answered with a success status.
    Success,
    /// The mirror answered with a 5xx status.
    ServerError,
    /// The mirror answered with another failure status.
    ClientError,
    /// The request did not get an answer.
    TransportError,
}

/// What to do after a request.
#[derive(Clone, Copy, Debug, PartialEq, Eq, Structural)]
pub enum RetryAction {
    /// Use the answer.
    Accept,
    /// Pause a second, then ask the same mirror again.
    RetryAfterPause,
    /// Ask the mirror at this position.
    TryEndpoint(usize),
    /// Every mirror failed: report the last error.
    GiveUp,
}

/// The outcome may be retried on the same mirror: a server error or no answer.
pub open spec fn is_transient(outcome: AttemptOutcome) -> bool {
    outcome == AttemptOutcome::ServerError || outcome == AttemptOutcome::TransportError
}

/// The step after the `attempt`-th request (counting from 1) to the mirror at
/// position `endpoint` of `endpoint_count`: accept a success; retry a transient
/// failure while the mirror has requests left; otherwise move to the next
/// mirror, or give up after the last one.
pub open spec fn retry_step(
    endpoint: int,
    attempt: int,
    endpoint_count: int,
    outcome: AttemptOutcome,
) -> RetryAction {
    if outcome == AttemptOutcome::Success {
        RetryAction::Accept
    } else if is_transient(outcome) && attempt < ATTEMPTS_PER_ENDPOINT {
        RetryAction::RetryAfterPause
    } else if endpoint + 1 < endpoint_count {
        RetryAction::TryEndpoint((endpoint + 1) as usize)
    } else {
        RetryAction::GiveUp
    }
}

/// Decides what follows the `attempt`-th request to the mirror at position
/// `endpoint`.
pub fn next_fetch_step(endpoint: usize, attempt: u32, endpoint_count: usize, outcome: AttemptOutcome) -> (action:
    RetryAction)
    requires
        endpoint < endpoint_count,
        1 <= attempt <= ATTEMPTS_PER_ENDPOINT,
    ensures
        action == retry_step(endpoint as int, attempt as int, endpoint_count as int, outcome),
        outcome == AttemptOutcome::Success ==> action == RetryAction::Accept,
        (outcome == AttemptOutcome::ServerError || outcome == AttemptOutcome::TransportError)
            && attempt < ATTEMPTS_PER_ENDPOINT ==> action == RetryAction::RetryAfterPause,
        (outcome == AttemptOutcome::ClientError || attempt == ATTEMPTS_PER_ENDPOINT) && outcome
            != AttemptOutcome::Success ==> action == (if endpoint + 1 < endpoint_count {
            RetryAction::TryEndpoint((endpoint + 1) as usize)
        } else {
            RetryAction::GiveUp
        }),
{
    let transient = match outcome {
        AttemptOutcome::ServerError | AttemptOutcome::TransportError => true,
        _ => false,
    };
    if outcome == AttemptOutcome::Success {
        RetryAction::Accept
    } else if transient && attempt < ATTEMPTS_PER_ENDPOINT {
        RetryAction::RetryAfterPause
    } else if endpoint + 1 < endpoint_count {
        RetryAction::TryEndpoint(endpoint + 1)
    } else {
        RetryAction::GiveUp
    }
}

/// What each answer leads to, on every mirror: a success is used; a server
/// error or a request without answer is retried once on the same mirror after
/// a pause, the last mirror included; a client error, or a second failure on a
/// mirror, moves on to the next mirror, and only after the last one does the
/// load give up.
pub proof fn law_retry_rule(endpoint: int, endpoint_count: int, outcome: AttemptOutcome)
    requires
        0 <= endpoint < endpoint_count <= usize::MAX,
    ensures
        retry_step(endpoint, 1, endpoint_count, AttemptOutcome::Success) == RetryAction::Accept,
        retry_step(endpoint, 2, endpoint_count, AttemptOutcome::Success) == RetryAction::Accept,
        retry_step(endpoint, 1, endpoint_count, AttemptOutcome::ServerError)
            == RetryAction::RetryAfterPause,
        retry_step(endpoint, 1, endpoint_count, AttemptOutcome::TransportError)
            == RetryAction::RetryAfterPause,
        outcome != AttemptOutcome::Success ==> retry_step(endpoint, 2, endpoint_count, outcome)
            == if endpoint + 1 < endpoint_count {
            RetryAction::TryEndpoint((endpoint + 1) as usize)
        } else {
            RetryAction::GiveUp
        },
        retry_step(endpoint, 1, endpoint_count, AttemptOutcome::ClientError) == if endpoint + 1
            < endpoint_count {
            RetryAction::TryEndpoint((endpoint + 1) as usize)
        } else {
            RetryAction::GiveUp
        },
{
}

/// Requests still allowed from a state: those left on the current mirror plus
/// a full share on each later one.
pub open spec fn requests_left(endpoint: int, attempt: int, endpoint_count: int) -> int {
    (endpoint_count - endpoint - 1) * ATTEMPTS_PER_ENDPOINT + (ATTEMPTS_PER_ENDPOINT - attempt)
}

/// Loading a region never loops: every step that asks again leaves fewer
/// requests allowed than before, and none are left when it gives up on the last
/// mirror, so at most two requests go to each mirror.
pub proof fn law_retries_are_bounded(
    endpoint: int,
    attempt: int,
    endpoint_count: int,
    outcome: AttemptOutcome,
)
    requires
        0 <= endpoint < endpoint_count <= usize::MAX,
        1 <= attempt <= ATTEMPTS_PER_ENDPOINT,
    ensures
        requests_left(endpoint, attempt, endpoint_count) >= 0,
        retry_step(endpoint, attempt, endpoint_count, outcome) == RetryAction::RetryAfterPause
            ==> attempt + 1 <= ATTEMPTS_PER_ENDPOINT && requests_left(endpoint, attempt + 1, endpoint_count)
            < requests_left(endpoint, attempt, endpoint_count),
        retry_step(endpoint, attempt, endpoint_count, outcome) matches RetryAction::TryEndpoint(next)
            ==> next == endpoint + 1 && next < endpoint_count && requests_left(
            next as int,
            1,
            endpoint_count,
        ) < requests_left(endpoint, attempt, endpoint_count),
        retry_step(endpoint, attempt, endpoint_count, outcome) == RetryAction::GiveUp
            ==> outcome != AttemptOutcome::Success && endpoint == endpoint_count - 1,
{
}

/// The error reported when every mirror failed.
pub fn all_endpoints_failed(last_error: &str) -> (message: String)
    ensures
        message@ == "All Overpass API endpoints failed. Last error: "@ + last_error@,
{
    let mut message = "All Overpass API endpoints failed. Last error: ".to_string();
    message.append(last_error);
    message
}

/// Where an element's coordinates are read from.
#[derive(Clone, Copy, Debug, PartialEq, Eq, Structural)]
pub enum CoordinateSource {
    /// The element's own latitude and longitude.
    Point,
    /// The center Overpass computed for the element.
    Center,
}

/// A node is located by its own coordinates and a way by its center; an
/// element missing them, or of another type, is not a mosque the platform keeps.
pub fn coordinate_source(element_type: &str, has_point: bool, has_center: bool) -> (source: Option<
    CoordinateSource,
>)
    ensures
        element_type@ == "node"@ ==> source == (if has_point {
            Some(CoordinateSource::Point)
        } else {
            None
        }),
        element_type@ == "way"@ ==> source == (if has_center {
            Some(CoordinateSource::Center)
        } else {
            None
        }),
        element_type@ != "node"@ && element_type@ != "way"@ ==> source is None,
{
    proof {
        reveal_strlit("node");
        reveal_strlit("way");
        assert("node"@.len() == 4 && "way"@.len() == 3);
        assert("node"@ != "way"@);
    }
    if same_text(element_type, "node") {
        if has_point {
            Some(CoordinateSource::Point)
        } else {
            None
        }
    } else if same_text(element_type, "way") {
        if has_center {
            Some(CoordinateSource::Center)
        } else {
            None
        }
    } else {
        None
    }
}

/// The `(name, street, city)` a region load stores for an element: the `name`
/// tag, then the `addr:city` tag as street and the `addr:street` tag as city,
/// as region loads store them; all `None` without tags.
pub fn overpass_address(tags: Option<Tags>) -> (address: (Option<String>, Option<String>, Option<String>))
    ensures
        match tags {
            Some(t) => address.0 == t.name && address.1 == t.city && address.2 == t.street,
            None => address.0 is None && address.1 is None && address.2 is None,
        },
{
    match tags {
        Some(t) => {
            let (name, city, street) = (t.name, t.street, t.city);
            (name, street, city)
        },
        None => (None, None, None),
    }
}

} // verus!
