//! The gateway-agnostic payment contract: one operation, `charge_card`,
//! implemented by interchangeable backends.

use crate::ecommerce::{Customer, Invoice};
use vstd::prelude::*;

verus! {

/// A request to charge a card, in the shape every backend accepts.
#[derive(Clone, Debug)]
pub struct ChargeCreditCardRequest {
    /// The charge amount in whole cents.
    pub transaction_amount: u64,
    pub order_number: String,
    pub customer: Customer,
    pub invoice: Invoice,
}

/// A successful charge: the transaction identifier the gateway assigned.
#[derive(Clone, Debug)]
pub struct ChargeCreditCardResponse {
    pub transaction_id: String,
}

/// Why a charge did not settle.  `Transport` and `MalformedResponse` are
/// infrastructure faults and retry-eligible; `Declined` is a definitive
/// merchant decision and is never retried.
#[derive(Clone, Debug)]
pub enum GatewayError {
    /// The call did not complete, timed out, or the gateway answered with an
    /// error status.
    Transport(String),
    /// The gateway answered, but the body was not a charge response.
    MalformedResponse(String),
    /// A syntactically valid response reporting that the card was declined.
    Declined(String),
}

/// True for the failures a client may safely retry: everything but a
/// definitive decline.
pub open spec fn spec_retry_eligible(e: GatewayError) -> bool {
    match e {
        GatewayError::Transport(_) => true,
        GatewayError::MalformedResponse(_) => true,
        GatewayError::Declined(_) => false,
    }
}

/// The human-readable message carried by a gateway error.
pub open spec fn spec_gateway_message(e: GatewayError) -> Seq<char> {
    match e {
        GatewayError::Transport(m) => m@,
        GatewayError::MalformedResponse(m) => m@,
        GatewayError::Declined(m) => m@,
    }
}

impl GatewayError {
    /// Whether a client may retry after this failure.
    pub fn is_retry_eligible(&self) -> (r: bool)
        ensures
            r == spec_retry_eligible(*self),
    {
        match self {
            GatewayError::Transport(_) => true,
            GatewayError::MalformedResponse(_) => true,
            GatewayError::Declined(_) => false,
        }
    }

    /// The message carried by the error.
    pub fn message(&self) -> (r: &String)
        ensures
            r@ == spec_gateway_message(*self),
    {
        match self {
            GatewayError::Transport(m) => m,
            GatewayError::MalformedResponse(m) => m,
            GatewayError::Declined(m) => m,
        }
    }
}

/// The payment-gateway contract: a single synchronous charge attempt with no
/// retry inside the backend.  The concrete backend is a deploy-time choice.
pub trait PaymentProcessor {
    /// Executes one charge attempt for `request`.
    fn charge_card(&self, request: &ChargeCreditCardRequest) -> (r: Result<
        ChargeCreditCardResponse,
        GatewayError,
    >);
}

/// A payment backend that can also be cloned into another handle.
pub trait PaymentProcessorDyn: PaymentProcessor + Clone {

}

impl<T: PaymentProcessor + Clone> PaymentProcessorDyn for T {

}

} // verus!
