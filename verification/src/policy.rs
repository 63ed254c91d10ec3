//! The decision: what is done to a response, given what was read of it.

use crate::encoding::Encoding;
use vstd::prelude::*;

verus! {

/// What the `Content-Encoding` of a response declares.
#[derive(Clone, Copy, Debug, PartialEq, Eq, Structural)]
pub enum Declared {
    /// The response has no such header.
    Absent,
    /// The header names this coding.
    Known(Encoding),
    /// The header is there and names no known coding.
    Unknown,
}

/// What a response says of its own encoding.
#[derive(Clone, Copy, Debug, PartialEq, Eq, Structural)]
pub struct ResponseEncodingState {
    /// Whether `Cache-Control` has the directive `no-transform`.
    pub no_transform: bool,
    /// What `Content-Encoding` declares.
    pub coding: Declared,
    /// The length that the body declares, where it declares one.
    pub body_len: Option<usize>,
}

/// What is done to a response.
#[derive(Clone, Copy, Debug, PartialEq, Eq, Structural)]
pub enum Plan {
    /// The response goes back exactly as it came.
    Forward,
    /// `Content-Encoding` names no known coding: an error goes back.
    Reject,
    /// `Vary` gets its entry; nothing else changes.
    Mark,
    /// `Vary` gets its entry and the body is compressed with this algorithm.
    Compress(Encoding),
}

/// What is done to a response in `state`, where bodies are compressed from
/// `threshold` bytes on and `selected` is the coding that client and server
/// agree on. The rules stand in the order in which they apply:
///
/// 1. `no-transform` forbids any change;
/// 2. from here on the response varies by `Accept-Encoding`;
/// 3. a declared coding must be a known one;
/// 4. a declared coding other than `identity` is left alone;
/// 5. so is a body that declares a length under the threshold;
/// 6. so is a response for which no algorithm was selected.
pub open spec fn plan_for(
    state: ResponseEncodingState,
    threshold: usize,
    selected: Encoding,
) -> Plan {
    if state.no_transform {
        Plan::Forward
    } else if state.coding is Unknown {
        Plan::Reject
    } else if state.coding is Known && state.coding != Declared::Known(Encoding::Identity) {
        Plan::Mark
    } else if state.body_len is Some && state.body_len->0 < threshold {
        Plan::Mark
    } else if selected.is_algorithm() {
        Plan::Compress(selected)
    } else {
        Plan::Mark
    }
}

/// Decides what is done to a response in `state`.
pub fn decide(state: &ResponseEncodingState, threshold: usize, selected: Encoding) -> (r: Plan)
    ensures
        r == plan_for(*state, threshold, selected),
{
    if state.no_transform {
        return Plan::Forward;
    }
    match state.coding {
        Declared::Unknown => {
            return Plan::Reject;
        },
        Declared::Known(Encoding::Identity) => {},
        Declared::Known(_) => {
            return Plan::Mark;
        },
        Declared::Absent => {},
    }
    match state.body_len {
        Some(len) => {
            if len < threshold {
                return Plan::Mark;
            }
        },
        None => {},
    }
    if selected.compresses() {
        Plan::Compress(selected)
    } else {
        Plan::Mark
    }
}

/// A response that forbids a transform goes back as it came, whatever else
/// holds of it.
pub proof fn no_transform_forwards(
    state: ResponseEncodingState,
    threshold: usize,
    selected: Encoding,
)
    requires
        state.no_transform,
    ensures
        plan_for(state, threshold, selected) == Plan::Forward,
{
}

/// A body is compressed only with an algorithm, only at or over the
/// threshold where it declares a length, and only where the response allows
/// a transform and declares no coding but `identity`.
pub proof fn compression_needs_all_of_it(
    state: ResponseEncodingState,
    threshold: usize,
    selected: Encoding,
)
    ensures
        plan_for(state, threshold, selected) is Compress <==> {
            &&& !state.no_transform
            &&& state.coding == Declared::Absent || state.coding == Declared::Known(
                Encoding::Identity,
            )
            &&& state.body_len matches Some(len) ==> len >= threshold
            &&& selected.is_algorithm()
        },
        plan_for(state, threshold, selected) is Compress ==> plan_for(state, threshold, selected)
            == Plan::Compress(selected),
{
}

} // verus!
