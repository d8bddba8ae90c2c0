//! Gateway-specific wire shapes and request/response logic for the
//! Authorize.net payment backend.
//!
//! The functions here are the computing half of the backend: they build the
//! gateway's wire request from the gateway-agnostic charge request, and they
//! classify the gateway's reply into the library's `GatewayError` taxonomy.
//! Serializing these shapes to JSON and performing the HTTPS call is I/O and
//! lives outside the library.

use crate::money::{spec_amount_string, spec_decimal, u64_to_string};
use crate::payment_processing::manager;
use crate::payment_processing::manager::{ChargeCreditCardResponse, GatewayError};
use crate::rng::random_in_range;
use vstd::prelude::*;

verus! {

/// A postal address in the gateway's wire shape.
#[derive(Debug)]
pub struct Address {
    pub first_name: String,
    pub last_name: String,
    pub company: String,
    pub address: String,
    pub city: String,
    pub state: String,
    pub zip: String,
    pub country: String,
}

/// Card data for one outbound charge call.  Sensitive: the library never
/// copies these fields anywhere but into the wire request; the persisted
/// order keeps only the masked descriptor.
#[derive(Debug)]
pub struct CreditCard {
    pub card_number: String,
    pub expiration_date: String,
    pub card_code: String,
}

impl Clone for Address {
    /// An exact copy of the address.
    fn clone(&self) -> (res: Self)
        ensures
            res == *self,
    {
        Address {
            first_name: self.first_name.clone(),
            last_name: self.last_name.clone(),
            company: self.company.clone(),
            address: self.address.clone(),
            city: self.city.clone(),
            state: self.state.clone(),
            zip: self.zip.clone(),
            country: self.country.clone(),
        }
    }
}

impl Clone for CreditCard {
    /// An exact copy of the card data.
    fn clone(&self) -> (res: Self)
        ensures
            res == *self,
    {
        CreditCard {
            card_number: self.card_number.clone(),
            expiration_date: self.expiration_date.clone(),
            card_code: self.card_code.clone(),
        }
    }
}

/// A named fee line (tax, duty or shipping) in the gateway's wire shape.
#[derive(Clone, Debug)]
pub struct AuthorizeNetFee {
    pub amount: String,
    pub name: String,
    pub description: String,
}

/// A free-form key/value pair the gateway echoes back.
#[derive(Clone, Debug)]
pub struct UserField {
    pub name: String,
    pub value: String,
}

/// The set of user fields sent with a transaction.
#[derive(Clone, Debug)]
pub struct UserFields {
    pub user_field: Vec<UserField>,
}

impl UserFields {
    /// The empty set of user fields, the default for every request.
    pub fn get_default() -> (r: UserFields)
        ensures
            r.user_field@.len() == 0,
    {
        UserFields { user_field: Vec::new() }
    }
}

/// The merchant credentials block of a wire request.
#[derive(Clone, Debug)]
pub struct MerchantAuthentication {
    pub name: String,
    pub transaction_key: String,
}

/// The payment block of a wire request.
#[derive(Debug)]
pub struct Payment {
    pub credit_card: CreditCard,
}

/// The customer block of a wire request.
#[derive(Clone, Debug)]
pub struct AuthorizeNetCustomer {
    pub id: String,
}

/// The authorization-indicator block of a wire request.
#[derive(Clone, Debug)]
pub struct AuthorizationIndicatorType {
    pub authorization_indicator: String,
}

/// The transaction body of a wire request.
#[derive(Debug)]
pub struct TransactionRequest {
    pub transaction_type: String,
    pub amount: String,
    pub payment: Payment,
    pub tax: AuthorizeNetFee,
    pub duty: AuthorizeNetFee,
    pub shipping: AuthorizeNetFee,
    pub po_number: String,
    pub customer: AuthorizeNetCustomer,
    pub bill_to: Address,
    pub ship_to: Address,
    pub customer_ip: String,
    pub user_fields: UserFields,
    pub authorization_indicator_type: AuthorizationIndicatorType,
}

/// The envelope of a wire request.
#[derive(Debug)]
pub struct CreateTransactionRequest {
    pub merchant_authentication: MerchantAuthentication,
    pub ref_id: String,
    pub transaction_request: TransactionRequest,
}

/// One full charge call in the gateway's wire shape.
#[derive(Debug)]
pub struct ChargeCreditCardRequest {
    pub create_transaction_request: CreateTransactionRequest,
}

/// The fields of a parsed gateway reply that classification reads: the
/// envelope result code, the per-transaction response code, and the echoed
/// reference id.
#[derive(Clone, Debug)]
pub struct TransactionReply {
    pub result_code: String,
    pub response_code: String,
    pub ref_id: String,
}

/// The backend for the Authorize.net gateway.
#[derive(Clone, Copy, Debug)]
pub struct AuthorizeNetProcessor;

impl AuthorizeNetProcessor {
    /// The wire request for one charge under the given merchant credentials:
    /// an auth-and-capture transaction whose reference id is the invoice id,
    /// whose amount and fee lines are the invoice's amounts in wire notation,
    /// whose card and addresses pass through from the customer, and whose
    /// purchase-order number is freshly drawn below 100000.
    pub fn build_charge_request(
        request: &manager::ChargeCreditCardRequest,
        merchant_id: String,
        transaction_key: String,
    ) -> (r: ChargeCreditCardRequest)
        requires
            request.invoice.wf(),
        ensures
            r.create_transaction_request.merchant_authentication.name == merchant_id,
            r.create_transaction_request.merchant_authentication.transaction_key
                == transaction_key,
            r.create_transaction_request.ref_id@ == spec_decimal(request.invoice.id as nat),
            ({
                let t = &r.create_transaction_request.transaction_request;
                &&& t.transaction_type@ == "authCaptureTransaction"@
                &&& t.amount@ == spec_amount_string(request.invoice.total@)
                &&& t.payment.credit_card == request.customer.credit_card
                &&& t.tax.name@ == "Taxes"@
                &&& t.tax.amount@ == spec_amount_string(request.invoice.taxes@)
                &&& t.shipping.name@ == "Shipping"@
                &&& t.shipping.amount@ == spec_amount_string(request.invoice.shipping@)
                &&& t.duty.amount@ == "0"@
                &&& (exists|n: nat| n < 100000 && t.po_number@ == #[trigger] spec_decimal(n))
                &&& t.customer.id@ == ""@
                &&& t.bill_to == request.customer.billing_address
                &&& t.ship_to == request.customer.shipping_address
                &&& t.customer_ip == request.customer.ip_address
                &&& t.user_fields.user_field@.len() == 0
                &&& t.authorization_indicator_type.authorization_indicator@ == "final"@
            }),
    {
        let taxes = request.invoice.get_taxes();
        let duties = request.invoice.get_duty();
        let shipping_fees = request.invoice.get_shipping();
        let drawn: u64 = random_in_range(0, 100000);
        let po_number = u64_to_string(drawn);
        proof {
            assert(po_number@ == spec_decimal(drawn as nat));
        }
        ChargeCreditCardRequest {
            create_transaction_request: CreateTransactionRequest {
                merchant_authentication: MerchantAuthentication {
                    name: merchant_id,
                    transaction_key,
                },
                ref_id: u64_to_string(request.invoice.id as u64),
                transaction_request: TransactionRequest {
                    transaction_type: "authCaptureTransaction".to_owned(),
                    amount: request.invoice.total.to_amount_string(),
                    payment: Payment { credit_card: request.customer.credit_card.clone() },
                    tax: taxes,
                    duty: duties,
                    shipping: shipping_fees,
                    po_number,
                    customer: AuthorizeNetCustomer { id: "".to_owned() },
                    bill_to: request.customer.billing_address.clone(),
                    ship_to: request.customer.shipping_address.clone(),
                    customer_ip: request.customer.ip_address.clone(),
                    user_fields: UserFields::get_default(),
                    authorization_indicator_type: AuthorizationIndicatorType {
                        authorization_indicator: "final".to_owned(),
                    },
                },
            },
        }
    }

    /// Classifies one gateway reply.  `reply` carries the classification
    /// fields of the body when it parsed as a transaction response.  On a
    /// success status, response code `"1"` (approved) settles the charge with
    /// the echoed reference id, `"2"` is the gateway's definitive decline,
    /// and any other code is a gateway-side processing error, surfaced as a
    /// retry-eligible transport failure; an unreadable body is a malformed
    /// response.  A non-success status is a transport failure.
    pub fn classify_response(status: u16, reply: Option<TransactionReply>) -> (r: Result<
        ChargeCreditCardResponse,
        GatewayError,
    >)
        ensures
            match r {
                Ok(resp) => 200 <= status < 300 && (reply matches Some(p) && p.response_code@
                    == "1"@ && resp.transaction_id == p.ref_id),
                Err(GatewayError::MalformedResponse(_)) => 200 <= status < 300 && reply is None,
                Err(GatewayError::Declined(_)) => 200 <= status < 300 && (reply matches Some(p)
                    && p.response_code@ == "2"@),
                Err(GatewayError::Transport(_)) => !(200 <= status < 300) || (reply matches Some(p)
                    && p.response_code@ != "1"@ && p.response_code@ != "2"@),
            },
    {
        if !(200 <= status && status < 300) {
            return Err(GatewayError::Transport("the gateway answered with an error status".to_owned()));
        }
        match reply {
            None => Err(
                GatewayError::MalformedResponse(
                    "gateway response was not a transaction response".to_owned(),
                ),
            ),
            Some(p) => {
                let approved = "1".to_owned();
                let declined = "2".to_owned();
                if p.response_code == approved {
                    Ok(ChargeCreditCardResponse { transaction_id: p.ref_id })
                } else if p.response_code == declined {
                    Err(GatewayError::Declined("the gateway declined the card".to_owned()))
                } else {
                    Err(
                        GatewayError::Transport(
                            "the gateway reported a processing error".to_owned(),
                        ),
                    )
                }
            },
        }
    }
}

} // verus!
