//! Token gating and suppression of stale responses.
//!
//! Every request that a controller issues carries an epoch: the number of
//! requests that the controller has issued up to and including that one. A
//! response is current while no later request has been issued; any other
//! response is stale and is dropped on arrival.

use crate::store::token_valid;
use vstd::prelude::*;

verus! {

/// How a controller disposed of an event.
#[derive(Clone, Copy, Debug, PartialEq, Eq, Structural)]
pub enum Outcome {
    /// The event was taken into the state.
    Applied,
    /// A request was due but there is no session: nothing was sent.
    GatingSkipped,
    /// A request failed in transport or in decoding its response.
    NetworkFailure,
    /// The form did not pass its local checks: nothing was sent.
    ValidationFailure,
    /// A response arrived after a later request was issued: it was dropped.
    StaleResponse,
}

impl Outcome {
    /// Whether the user is to be told: gating and staleness pass in silence.
    pub open spec fn spec_is_reported(self) -> bool {
        self == Outcome::NetworkFailure || self == Outcome::ValidationFailure
    }

    /// Whether the user is to be told: gating and staleness pass in silence.
    #[verifier::when_used_as_spec(spec_is_reported)]
    pub fn is_reported(self) -> (r: bool)
        ensures
            r == self.spec_is_reported(),
    {
        match self {
            Outcome::NetworkFailure | Outcome::ValidationFailure => true,
            _ => false,
        }
    }
}

/// Whether a response tagged `epoch` may still be applied by a controller
/// whose latest request has epoch `latest`.
pub open spec fn current(latest: nat, epoch: nat) -> bool {
    epoch == latest
}

/// What a request carries: its epoch, by which its response is told from
/// those of other requests, and the token that it is made with.
#[derive(Debug, PartialEq, Eq)]
pub struct Ticket {
    pub epoch: u64,
    pub token: String,
}

/// Counts the requests of one controller.
#[derive(Debug, PartialEq, Eq)]
pub struct AsyncFetchCoordinator {
    epoch: u64,
}

impl View for AsyncFetchCoordinator {
    type V = nat;

    closed spec fn view(&self) -> nat {
        self.epoch as nat
    }
}

impl AsyncFetchCoordinator {
    /// A coordinator that has issued no request.
    pub fn new() -> (r: AsyncFetchCoordinator)
        ensures
            r@ == 0,
    {
        AsyncFetchCoordinator { epoch: 0 }
    }

    /// The epoch of the latest request, 0 before the first.
    pub fn latest(&self) -> (r: u64)
        ensures
            r == self@,
    {
        self.epoch
    }

    /// Whether another request can be counted.
    pub fn can_issue(&self) -> (r: bool)
        ensures
            r == (self@ < u64::MAX),
    {
        self.epoch < u64::MAX
    }

    /// Counts a new request made on behalf of `token` and hands back what the
    /// request is to carry. Every response tagged with an earlier epoch is
    /// stale from now on. The caller has checked the token: a request is never
    /// counted for a token that is empty or the word `error`.
    pub fn fetch(&mut self, token: String) -> (ticket: Ticket)
        requires
            token_valid(token@),
            old(self)@ < u64::MAX,
        ensures
            final(self)@ == old(self)@ + 1,
            ticket.epoch == final(self)@,
            ticket.token@ == token@,
        no_unwind
    {
        self.epoch = self.epoch + 1;
        Ticket { epoch: self.epoch, token }
    }

    /// Whether a response tagged `epoch` is that of the latest request.
    pub fn is_current(&self, epoch: u64) -> (r: bool)
        ensures
            r == current(self@, epoch as nat),
    {
        epoch == self.epoch
    }
}

/// A response can be current for one epoch only: once a later request is
/// issued, no response to an earlier one is.
pub proof fn lemma_issue_makes_stale(latest: nat, epoch: nat)
    requires
        epoch <= latest,
    ensures
        !current(latest + 1, epoch),
{
}

} // verus!
