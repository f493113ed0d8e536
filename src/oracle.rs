//! The submission worker: takes accepted observations one at a time and turns each into a
//! write for its destination contract, with at most one write in flight.

use vstd::prelude::*;

use crate::config::{copy_routes, find_route, spec_route, Config, ContractRoute};
use crate::decimal::Decimal;
use crate::quote::{Address, QuotePrice};

verus! {

/// The write that sets a destination contract's price.
#[derive(Clone, Debug)]
pub struct SetPrice {
    /// The destination contract.
    pub contract: String,
    /// The observed value.
    pub value: Decimal,
    /// When the value was observed, in seconds since the epoch.
    pub timestamp: u64,
}

/// Why an observation was not turned into a write.
#[derive(Clone, Debug, PartialEq, Eq)]
pub enum SubmitError {
    /// A write is still in flight.
    Busy,
    /// The worker was stopped.
    Stopped,
    /// The observation's source contract has no destination contract.
    MissingContract(Address),
}

/// The worker's state: the observation whose write is in flight, and whether it stopped.
pub struct WorkerView {
    pub in_flight: Option<QuotePrice>,
    pub stopped: bool,
}

/// The state once the write in flight has ended, whether it `succeeded` or not.
pub open spec fn spec_after_outcome(state: WorkerView, succeeded: bool) -> WorkerView {
    WorkerView { in_flight: None, stopped: state.stopped }
}

/// Whether the worker in `state` turns `quote` into a write.
pub open spec fn spec_submits(state: WorkerView, routes: Seq<ContractRoute>, quote: QuotePrice) -> bool {
    !state.stopped && state.in_flight is None && spec_route(routes, quote.key()) is Some
}

/// Serializes the writes to the destination ledger.
pub struct Oracle {
    contract_map: Vec<ContractRoute>,
    in_flight: Option<QuotePrice>,
    stopped: bool,
}

impl View for Oracle {
    type V = WorkerView;

    closed spec fn view(&self) -> WorkerView {
        WorkerView { in_flight: self.in_flight, stopped: self.stopped }
    }
}

impl Oracle {
    /// Where each source contract's rate is written.
    pub closed spec fn routes(&self) -> Seq<ContractRoute> {
        self.contract_map@
    }

    /// An idle worker writing to the destination contracts of `config`.
    pub fn new(config: &Config) -> (r: Oracle)
        ensures
            r.routes() == config.contract_map@,
            r@.in_flight is None,
            !r@.stopped,
    {
        Oracle { contract_map: copy_routes(&config.contract_map), in_flight: None, stopped: false }
    }

    /// Whether a write is in flight.
    pub fn is_busy(&self) -> (r: bool)
        ensures
            r == self@.in_flight is Some,
    {
        self.in_flight.is_some()
    }

    /// Whether the worker stopped.
    pub fn is_stopped(&self) -> (r: bool)
        ensures
            r == self@.stopped,
    {
        self.stopped
    }

    /// Turns `quote` into the write for its destination contract, which is then in flight.
    /// Refused while stopped, while another write is in flight, or when the source contract
    /// has no destination; a refusal leaves the worker as it was. An unrouted source is an
    /// error here, not an abort of the worker: [`crate::config::check_required_fields`]
    /// already keeps such sources from starting the relay.
    pub fn submit_quote(&mut self, quote: QuotePrice) -> (r: Result<SetPrice, SubmitError>)
        ensures
            final(self).routes() == old(self).routes(),
            final(self)@.stopped == old(self)@.stopped,
            r is Ok <==> spec_submits(old(self)@, old(self).routes(), quote),
            match r {
                Ok(write) => {
                    &&& spec_route(old(self).routes(), quote.key()) == Some(write.contract@)
                    &&& write.value == quote.value
                    &&& write.timestamp == quote.timestamp
                    &&& final(self)@.in_flight == Some(quote)
                },
                Err(e) => {
                    &&& final(self)@ == old(self)@
                    &&& (e == SubmitError::Stopped <==> old(self)@.stopped)
                    &&& (e == SubmitError::Busy <==> !old(self)@.stopped && old(
                        self,
                    )@.in_flight is Some)
                    &&& (e == SubmitError::MissingContract(quote.asset.ethereum_contract) <==> (
                    !old(self)@.stopped && old(self)@.in_flight is None))
                },
            },
    {
        if self.stopped {
            return Err(SubmitError::Stopped);
        }
        if self.in_flight.is_some() {
            return Err(SubmitError::Busy);
        }
        match find_route(&self.contract_map, &quote.asset.ethereum_contract) {
            None => Err(SubmitError::MissingContract(quote.asset.ethereum_contract)),
            Some(contract) => {
                let write = SetPrice { contract, value: quote.value, timestamp: quote.timestamp };
                self.in_flight = Some(quote);
                Ok(write)
            },
        }
    }

    /// Ends the write in flight, whether it `succeeded` or failed, and hands back its
    /// observation. Failures are not retried: the worker is ready for the next one.
    pub fn finish_submission(&mut self, succeeded: bool) -> (r: Option<QuotePrice>)
        ensures
            final(self).routes() == old(self).routes(),
            final(self)@ == spec_after_outcome(old(self)@, succeeded),
            r == old(self)@.in_flight,
    {
        let done = self.in_flight.take();
        done
    }

    /// Stops the worker once its queue has closed; it accepts nothing afterwards.
    pub fn close(&mut self)
        ensures
            final(self).routes() == old(self).routes(),
            final(self)@.stopped,
            final(self)@.in_flight == old(self)@.in_flight,
    {
        self.stopped = true;
    }
}

/// A failed write does not hold up the next observation: once a write has ended, the next
/// observation (of another asset or the same) is written exactly as it would have been
/// after a success, that is whenever the worker is running and its source is routed.
pub proof fn lemma_failure_does_not_block_next(
    state: WorkerView,
    routes: Seq<ContractRoute>,
    next: QuotePrice,
)
    ensures
        spec_submits(spec_after_outcome(state, false), routes, next) == spec_submits(
            spec_after_outcome(state, true),
            routes,
            next,
        ),
        spec_submits(spec_after_outcome(state, false), routes, next) <==> !state.stopped
            && spec_route(routes, next.key()) is Some,
{
}

} // verus!
