//! Gateway-specific wire shapes and request/response logic for the Fortis
//! payment backend.
//!
//! As with the other real backend, only the computing half is here: building
//! the keyed-sale wire request and classifying the reply.  The HTTPS call and
//! the JSON codec live outside the library.

use crate::payment_processing::manager::{
    ChargeCreditCardRequest, ChargeCreditCardResponse, GatewayError,
};
use vstd::prelude::*;

verus! {

/// The body of a keyed credit-card sale in the gateway's wire shape.
#[derive(Clone, Debug)]
pub struct FortisChargeRequest {
    pub transaction_amount: u64,
    pub order_number: String,
    pub account_number: String,
    pub exp_date: String,
    pub cvv: String,
}

/// The backend for the Fortis gateway.
#[derive(Clone, Copy, Debug)]
pub struct FortisPayProcessor;

impl FortisPayProcessor {
    /// The wire request for one charge: the amount and order number pass
    /// through, and the card fields move into the gateway's field names.
    pub fn build_charge_request(request: &ChargeCreditCardRequest) -> (r: FortisChargeRequest)
        ensures
            r.transaction_amount == request.transaction_amount,
            r.order_number@ == request.order_number@,
            r.account_number@ == request.customer.credit_card.card_number@,
            r.exp_date@ == request.customer.credit_card.expiration_date@,
            r.cvv@ == request.customer.credit_card.card_code@,
    {
        FortisChargeRequest {
            transaction_amount: request.transaction_amount,
            order_number: request.order_number.clone(),
            account_number: request.customer.credit_card.card_number.clone(),
            exp_date: request.customer.credit_card.expiration_date.clone(),
            cvv: request.customer.credit_card.card_code.clone(),
        }
    }

    /// Classifies one gateway reply.  `transaction_batch_id` is the
    /// `data.transaction_batch_id` field of the body, when the body parsed as
    /// a sale response.  A success status with a parsed body settles the
    /// charge; a success status with an unreadable body is a malformed
    /// response; a client-error status is a decline; anything else is a
    /// transport-level failure and retry-eligible.
    pub fn classify_response(status: u16, transaction_batch_id: Option<String>) -> (r: Result<
        ChargeCreditCardResponse,
        GatewayError,
    >)
        ensures
            match r {
                Ok(resp) => 200 <= status < 300 && (transaction_batch_id matches Some(id)
                    && resp.transaction_id@ == id@),
                Err(GatewayError::MalformedResponse(_)) => 200 <= status < 300
                    && transaction_batch_id is None,
                Err(GatewayError::Declined(_)) => 400 <= status < 500,
                Err(GatewayError::Transport(_)) => !(200 <= status < 300) && !(400 <= status
                    < 500),
            },
    {
        if 200 <= status && status < 300 {
            match transaction_batch_id {
                Some(id) => Ok(ChargeCreditCardResponse { transaction_id: id }),
                None => Err(
                    GatewayError::MalformedResponse(
                        "gateway response was not a sale response".to_owned(),
                    ),
                ),
            }
        } else if 400 <= status && status < 500 {
            Err(GatewayError::Declined("the gateway declined the charge".to_owned()))
        } else {
            Err(GatewayError::Transport("the gateway reported a processing error".to_owned()))
        }
    }
}

} // verus!
