//! The connection controller: what a connect attempt does to the slot.
//!
//! A connect runs in three steps. `plan_connect` reads the endpoint and says
//! whether to dial. The shell performs the handshake. `settle` takes what
//! came of it and updates the connection slot in one step.

use crate::slot::{changed, send_gate, ConnectionSlot, SendFailure, SlotChange};
use http::uri::InvalidUri;
use http::Uri;
use std::str::FromStr;
use vstd::prelude::*;

verus! {

/// A parsed endpoint address of the `http` crate. Its parts are not read
/// here: the value is handed on to the transport as it came.
#[verifier::external_type_specification]
#[verifier::external_body]
pub struct ExUri(http::Uri);

/// The error of the `http` crate for a text that is no address.
#[verifier::external_type_specification]
#[verifier::external_body]
pub struct ExInvalidUri(http::uri::InvalidUri);

/// What the `http` crate makes of `endpoint`: the address it stands for, or
/// the error for a text that is no address.
pub uninterp spec fn parsed_endpoint(endpoint: Seq<char>) -> Result<Uri, InvalidUri>;

/// Whether the `http` crate accepts `endpoint` as an address.
pub open spec fn parses_as_uri(endpoint: Seq<char>) -> bool {
    parsed_endpoint(endpoint) is Ok
}

/// Calls `<http::Uri as FromStr>::from_str`. The parser reads nothing but the
/// text it is given, so its result, address or error, is a function of that
/// text.
#[verifier::external_body]
fn parse_endpoint(endpoint: &str) -> (parsed: Result<Uri, InvalidUri>)
    ensures
        parsed == parsed_endpoint(endpoint@),
{
    Uri::from_str(endpoint)
}

/// What asked for a connect.
#[derive(Debug, Clone, Copy, PartialEq, Eq, Structural)]
pub enum Trigger {
    /// The endpoint given when the session started.
    Startup,
    /// The operator: an edited endpoint was submitted, or a reconnect was
    /// asked for.
    Reset,
}

/// Why a connect attempt failed.
#[derive(Debug, Clone, Copy, PartialEq, Eq, Structural)]
pub enum ConnectFailure {
    /// The endpoint is no address.
    InvalidEndpoint,
    /// The handshake with the endpoint failed.
    ConnectError,
}

/// Why a connect ends without a handshake.
#[derive(Debug, Clone, Copy, PartialEq, Eq, Structural)]
pub enum SkipReason {
    /// The endpoint is empty: no connection is asked for.
    NotRequested,
    /// The endpoint is no address.
    InvalidEndpoint,
}

/// What to do about an endpoint.
#[derive(Debug)]
pub enum ConnectPlan {
    /// Do not dial.
    Skip(SkipReason),
    /// Perform the handshake with this address.
    Dial(Uri),
}

/// How a connect attempt went, up to and including the handshake.
#[derive(Debug)]
pub enum Attempt<H> {
    /// The plan was not to dial.
    Skipped(SkipReason),
    /// The handshake failed.
    HandshakeFailed,
    /// The handshake succeeded; this is the send-half of the new connection.
    Connected(H),
}

/// The outcome of a connect.
#[derive(Debug, Clone, Copy, PartialEq, Eq, Structural)]
pub enum ConnectOutcome {
    /// No connection was asked for.
    NotRequested,
    /// A new send-half is installed; its relay is to be started.
    Success,
    Failure(ConnectFailure),
}

/// What `settle` hands back.
#[derive(Debug, PartialEq, Eq)]
pub struct Settled<H> {
    pub outcome: ConnectOutcome,
    /// The send-half that left the slot, for the caller to close. Failing to
    /// close it changes nothing.
    pub retired: Option<H>,
}

/// The plan for `endpoint`, given what parsing it gave.
pub open spec fn planned(endpoint: Seq<char>, parsed: Result<Uri, InvalidUri>) -> ConnectPlan {
    if endpoint.len() == 0 {
        ConnectPlan::Skip(SkipReason::NotRequested)
    } else {
        match parsed {
            Ok(uri) => ConnectPlan::Dial(uri),
            Err(_) => ConnectPlan::Skip(SkipReason::InvalidEndpoint),
        }
    }
}

/// The outcome that an attempt stands for.
pub open spec fn outcome_of<H>(attempt: Attempt<H>) -> ConnectOutcome {
    match attempt {
        Attempt::Skipped(SkipReason::NotRequested) => ConnectOutcome::NotRequested,
        Attempt::Skipped(SkipReason::InvalidEndpoint) => ConnectOutcome::Failure(
            ConnectFailure::InvalidEndpoint,
        ),
        Attempt::HandshakeFailed => ConnectOutcome::Failure(ConnectFailure::ConnectError),
        Attempt::Connected(_) => ConnectOutcome::Success,
    }
}

/// What settling an attempt does to the slot, or `None` where it leaves the
/// slot alone.
///
/// A new send-half is installed. A failed handshake empties the slot. An
/// attempt that never dialled empties the slot when the operator asked for
/// the connect, and leaves it alone at startup.
pub open spec fn change_for<H>(trigger: Trigger, attempt: Attempt<H>) -> Option<SlotChange<H>> {
    match attempt {
        Attempt::Connected(half) => Some(SlotChange::Install(half)),
        Attempt::HandshakeFailed => Some(SlotChange::Clear),
        Attempt::Skipped(_) => match trigger {
            Trigger::Startup => None,
            Trigger::Reset => Some(SlotChange::Clear),
        },
    }
}

/// The slot after an attempt was settled.
pub open spec fn settled_slot<H>(slot: Option<H>, trigger: Trigger, attempt: Attempt<H>) -> Option<
    H,
> {
    match change_for(trigger, attempt) {
        Some(change) => changed(slot, change),
        None => slot,
    }
}

/// The send-half that settling an attempt takes out of the slot: what the
/// slot held, unless the slot is left alone.
pub open spec fn retired_half<H>(slot: Option<H>, trigger: Trigger, attempt: Attempt<H>) -> Option<
    H,
> {
    match change_for(trigger, attempt) {
        Some(_) => slot,
        None => None,
    }
}

/// Decides what to do about `endpoint`, given the result of parsing it.
pub fn plan_parsed(endpoint: &str, parsed: Result<Uri, InvalidUri>) -> (plan: ConnectPlan)
    ensures
        plan == planned(endpoint@, parsed),
{
    if endpoint.is_empty() {
        ConnectPlan::Skip(SkipReason::NotRequested)
    } else {
        match parsed {
            Ok(uri) => ConnectPlan::Dial(uri),
            Err(_) => ConnectPlan::Skip(SkipReason::InvalidEndpoint),
        }
    }
}

/// Decides what to do about `endpoint`.
///
/// An empty endpoint asks for no connection. Any other endpoint is dialled
/// exactly when it parses as an address, with the address that it parses
/// to, and is invalid when it does not.
pub fn plan_connect(endpoint: &str) -> (plan: ConnectPlan)
    ensures
        plan == planned(endpoint@, parsed_endpoint(endpoint@)),
{
    let parsed = parse_endpoint(endpoint);
    plan_parsed(endpoint, parsed)
}

/// The plan for an endpoint is to dial exactly when the endpoint is not
/// empty and parses as an address, and the address dialled is then the one
/// it parses to. An empty endpoint asks for nothing, and any other text that
/// does not parse is invalid.
pub proof fn lemma_plan_cases(endpoint: Seq<char>)
    ensures
        ({
            let plan = planned(endpoint, parsed_endpoint(endpoint));
            &&& endpoint.len() == 0 ==> plan == ConnectPlan::Skip(SkipReason::NotRequested)
            &&& endpoint.len() > 0 && !parses_as_uri(endpoint) ==> plan == ConnectPlan::Skip(
                SkipReason::InvalidEndpoint,
            )
            &&& endpoint.len() > 0 && parses_as_uri(endpoint) ==> plan == ConnectPlan::Dial(
                parsed_endpoint(endpoint)->Ok_0,
            )
            &&& plan is Dial <==> endpoint.len() > 0 && parses_as_uri(endpoint)
        }),
{
}

/// Applies the result of a connect attempt to the slot.
///
/// A new send-half replaces whatever the slot held. A failed handshake
/// empties the slot, so that later sends report that there is no connection.
/// An attempt that never dialled empties the slot when the operator asked for
/// it and leaves the slot alone at startup.
pub fn settle<H>(slot: &mut ConnectionSlot<H>, trigger: Trigger, attempt: Attempt<H>) -> (done:
    Settled<H>)
    ensures
        final(slot)@ == settled_slot(old(slot)@, trigger, attempt),
        done.outcome == outcome_of(attempt),
        done.retired == retired_half(old(slot)@, trigger, attempt),
{
    match attempt {
        Attempt::Connected(half) => {
            let retired = slot.install(half);
            Settled { outcome: ConnectOutcome::Success, retired }
        },
        Attempt::HandshakeFailed => {
            let retired = slot.clear();
            Settled { outcome: ConnectOutcome::Failure(ConnectFailure::ConnectError), retired }
        },
        Attempt::Skipped(reason) => {
            let retired = match trigger {
                Trigger::Startup => None,
                Trigger::Reset => slot.clear(),
            };
            let outcome = match reason {
                SkipReason::NotRequested => ConnectOutcome::NotRequested,
                SkipReason::InvalidEndpoint => ConnectOutcome::Failure(
                    ConnectFailure::InvalidEndpoint,
                ),
            };
            Settled { outcome, retired }
        },
    }
}

/// After a connect that succeeded, a send finds the new send-half; after
/// one whose handshake failed, a send finds no connection. Neither depends
/// on what the slot held before or on what asked for the connect.
pub proof fn lemma_settled_connect_decides_sends<H>(
    slot: Option<H>,
    trigger: Trigger,
    attempt: Attempt<H>,
)
    ensures
        attempt matches Attempt::Connected(half) ==> send_gate(
            settled_slot(slot, trigger, attempt),
        ) == Ok::<H, SendFailure>(half),
        attempt is HandshakeFailed ==> send_gate(settled_slot(slot, trigger, attempt)) == Err::<
            H,
            SendFailure,
        >(SendFailure::NotConnected),
        outcome_of(attempt) == ConnectOutcome::Success <==> attempt is Connected,
{
}

} // verus!
