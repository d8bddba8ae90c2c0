//! The sandbox payment backend: accepts every charge with a fixed
//! transaction id, so pipelines can be exercised deterministically in tests
//! and development.

use crate::payment_processing::manager::{
    ChargeCreditCardRequest, ChargeCreditCardResponse, GatewayError, PaymentProcessor,
};
use vstd::prelude::*;

verus! {

/// A no-op backend that settles every charge.
#[derive(Clone, Copy, Debug)]
pub struct SandboxProcessor;

impl PaymentProcessor for SandboxProcessor {
    /// Always succeeds and echoes the fixed transaction id `"1234"`; never
    /// reports a gateway error.
    fn charge_card(&self, request: &ChargeCreditCardRequest) -> (r: Result<
        ChargeCreditCardResponse,
        GatewayError,
    >)
        ensures
            r matches Ok(resp) && resp.transaction_id@ == "1234"@,
    {
        Ok(ChargeCreditCardResponse { transaction_id: "1234".to_owned() })
    }
}

} // verus!
