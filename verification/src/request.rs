//! The shapes of a submitted order and their mapping into the order domain.

use crate::ecommerce::Customer;
use crate::payment_processing::authorize_net::{Address, CreditCard};
use vstd::prelude::*;

verus! {

/// The customer block of a submitted order.
#[derive(Debug)]
pub struct CustomerDetails {
    pub email_address: String,
    pub first_name: String,
    pub last_name: String,
    pub street_address_1: String,
    pub street_address_2: String,
    pub city: String,
    pub state: String,
    pub zip_code: String,
    pub phone_number: String,
}

/// The payment block of a submitted order.
#[derive(Debug)]
pub struct PaymentDetails {
    pub credit_card_number: String,
    pub credit_card_expiry: String,
    pub credit_card_cvv: String,
    pub credit_card_name: String,
}

/// One submitted order line: a product reference and a quantity.
#[derive(Debug)]
pub struct OrderItem {
    pub id: String,
    pub qty: u32,
}

/// A submitted order.
#[derive(Debug)]
pub struct NewOrder {
    pub customer_details: CustomerDetails,
    pub payment_details: PaymentDetails,
    pub order_items: Vec<OrderItem>,
}

/// Builds the settlement customer from a submitted order: names, address and
/// card pass through field for field, the billing and shipping addresses are
/// the same submitted address, the company is empty, the country is `US`,
/// and no client IP is recorded.
pub fn customer_from_details(details: &CustomerDetails, payment: &PaymentDetails) -> (c: Customer)
    ensures
        c.first_name@ == details.first_name@,
        c.last_name@ == details.last_name@,
        c.email@ == details.email_address@,
        c.phone_number@ == details.phone_number@,
        c.ip_address@ == ""@,
        c.billing_address.first_name@ == details.first_name@,
        c.billing_address.last_name@ == details.last_name@,
        c.billing_address.company@ == ""@,
        c.billing_address.address@ == details.street_address_1@,
        c.billing_address.city@ == details.city@,
        c.billing_address.state@ == details.state@,
        c.billing_address.zip@ == details.zip_code@,
        c.billing_address.country@ == "US"@,
        c.shipping_address == c.billing_address,
        c.credit_card.card_number@ == payment.credit_card_number@,
        c.credit_card.expiration_date@ == payment.credit_card_expiry@,
        c.credit_card.card_code@ == payment.credit_card_cvv@,
{
    let address = Address {
        first_name: details.first_name.clone(),
        last_name: details.last_name.clone(),
        company: "".to_owned(),
        address: details.street_address_1.clone(),
        city: details.city.clone(),
        state: details.state.clone(),
        zip: details.zip_code.clone(),
        country: "US".to_owned(),
    };
    Customer {
        first_name: details.first_name.clone(),
        last_name: details.last_name.clone(),
        email: details.email_address.clone(),
        phone_number: details.phone_number.clone(),
        ip_address: "".to_owned(),
        billing_address: address.clone(),
        shipping_address: address,
        credit_card: CreditCard {
            card_number: payment.credit_card_number.clone(),
            expiration_date: payment.credit_card_expiry.clone(),
            card_code: payment.credit_card_cvv.clone(),
        },
    }
}

} // verus!
