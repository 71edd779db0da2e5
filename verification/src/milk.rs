//! The milk-withdrawal decision: admission through the shared gate, then
//! dispatch on the request payload.
//!
//! The surrounding HTTP layer only reads the content type, parses a JSON body
//! when one is announced, and renders the outcome; which outcome a request
//! gets is decided — and proved — here.

use vstd::prelude::*;

use crate::conversion::UnitConverter;
use crate::gate::TokenBucketGate;

verus! {

/// What the caller handed in: no JSON was announced, a JSON body that did not
/// parse into a request, or a parsed conversion request.
#[derive(Debug)]
pub enum MilkPayload {
    NoJson,
    Malformed,
    Parsed(UnitConverter),
}

impl MilkPayload {
    /// A parsed request must carry representable quantities.
    pub open spec fn wf(&self) -> bool {
        self matches MilkPayload::Parsed(u) ==> u.wf()
    }
}

/// The outcome of one milk request, for the HTTP layer to render.
#[derive(Debug, PartialEq, Eq)]
pub enum MilkOutcome {
    /// No token was available: rate-limited, nothing else happened.
    RateLimited,
    /// Admitted, no conversion asked for: plain milk is withdrawn.
    Withdrawn,
    /// Admitted, but the JSON payload was malformed or not exactly one unit.
    BadPayload,
    /// Admitted and converted: the result to send back.
    Converted(UnitConverter),
}

/// Decide one milk request. First the admission check — one token against the
/// shared gate, the sole side effect. A refused caller gets `RateLimited` with
/// the payload untouched. An admitted caller gets plain milk, a payload
/// rejection, or the converted result, exactly as the contract states.
pub fn handle_milk(gate: &mut TokenBucketGate, payload: MilkPayload) -> (r: MilkOutcome)
    requires
        old(gate).wf(),
        payload.wf(),
    ensures
        *final(gate) == TokenBucketGate::spec_try_acquire(*old(gate), 1).0,
        final(gate).wf(),
        ({
            let granted = TokenBucketGate::spec_try_acquire(*old(gate), 1).1;
            &&& (!granted ==> r is RateLimited)
            &&& (granted && payload is NoJson ==> r is Withdrawn)
            &&& (granted && payload is Malformed ==> r is BadPayload)
            &&& (payload matches MilkPayload::Parsed(u) ==> {
                &&& (granted && !u.spec_is_valid() ==> r is BadPayload)
                &&& (granted && u.spec_is_valid() ==> r == MilkOutcome::Converted(
                    u.spec_convert()->0,
                ))
            })
        }),
{
    let has_milk = gate.try_acquire(1);
    if !has_milk {
        return MilkOutcome::RateLimited;
    }
    match payload {
        MilkPayload::NoJson => MilkOutcome::Withdrawn,
        MilkPayload::Malformed => MilkOutcome::BadPayload,
        MilkPayload::Parsed(request) => {
            if !request.is_valid() {
                return MilkOutcome::BadPayload;
            }
            match request.convert() {
                Ok(converted) => MilkOutcome::Converted(converted),
                Err(_) => MilkOutcome::BadPayload,
            }
        },
    }
}

} // verus!
