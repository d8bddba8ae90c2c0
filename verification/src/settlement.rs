//! The settlement orchestrator: one request's pipeline from submitted cart to
//! settled, declined or failed order.
//!
//! The pipeline prices the cart, persists the order aggregate, publishes one
//! progress event, and only then issues the single charge attempt; a pricing
//! failure aborts before anything is persisted, and a gateway failure leaves
//! the order persisted with a status that records where the pipeline stopped.

use crate::ecommerce::{
    spec_adjustments_ok, spec_invoice_prices, spec_pricing_fits, Customer, Invoice, LineItem,
    OrderAdjustments, PricingError,
};
use crate::money::{u64_to_string, spec_decimal, MONEY_MAX_UNITS, RATE_MAX};
use crate::notifier::EventNotifier;
use crate::payment_processing::manager::{
    spec_retry_eligible, ChargeCreditCardRequest, ChargeCreditCardResponse, GatewayError,
    PaymentProcessor,
};
use crate::rng::random_in_range;
use crate::store::{persist_aggregate, spec_address_row, spec_item_row, MemoryStore, OrderStatus};
use vstd::prelude::*;

verus! {

/// The masked card descriptor persisted with a settled order: a brand name
/// derived from the leading digit and the trailing four digits.  Never the
/// full number, never the verification code.
#[derive(Debug)]
pub struct CardDescriptor {
    pub card_type: String,
    pub last4: String,
}

/// The last four characters of a card number (the whole number when it is
/// already that short).
pub open spec fn spec_last4(s: Seq<char>) -> Seq<char> {
    if s.len() <= 4 {
        s
    } else {
        s.subrange(s.len() - 4, s.len() as int)
    }
}

/// The card brand read off the leading digit of the number.
pub open spec fn spec_card_type(s: Seq<char>) -> Seq<char> {
    if s.len() == 0 {
        "unknown"@
    } else if s[0] == '4' {
        "visa"@
    } else if s[0] == '5' {
        "mastercard"@
    } else if s[0] == '3' {
        "amex"@
    } else if s[0] == '6' {
        "discover"@
    } else {
        "unknown"@
    }
}

/// Masks a card number down to the descriptor the order header may store.
pub fn mask_card(number: &String) -> (d: CardDescriptor)
    ensures
        d.card_type@ == spec_card_type(number@),
        d.last4@ == spec_last4(number@),
{
    let n = number.as_str().unicode_len();
    let last4 = if n <= 4 {
        number.clone()
    } else {
        number.as_str().substring_char(n - 4, n).to_owned()
    };
    let card_type: &str = if n == 0 {
        "unknown"
    } else {
        let c = number.as_str().get_char(0);
        if c == '4' {
            "visa"
        } else if c == '5' {
            "mastercard"
        } else if c == '3' {
            "amex"
        } else if c == '6' {
            "discover"
        } else {
            "unknown"
        }
    };
    CardDescriptor { card_type: card_type.to_owned(), last4 }
}

/// Which storage write of the aggregate failed.  The library's own store
/// never fails; callers that persist through an external database report
/// their failures with this type so the orchestration outcome can say where
/// the pipeline stopped.
#[derive(Clone, Debug)]
pub enum PersistenceError {
    /// Writing an address row failed.
    AddressWrite(String),
    /// Writing the order header failed.
    OrderWrite(String),
    /// Writing an order-item row failed.
    ItemsWrite(String),
}

/// Everything that can stop a settlement attempt, by pipeline stage.
#[derive(Clone, Debug)]
pub enum SettlementError {
    /// The request could not be priced; nothing was persisted.
    Pricing(PricingError),
    /// The storage layer failed part-way; retryable server-side.
    Persistence(PersistenceError),
    /// The charge attempt failed after the order was persisted.
    Gateway(GatewayError),
}

/// Which settlement failures a client may retry: storage and transport
/// faults, but never an invalid request and never a definitive decline.
pub open spec fn spec_settlement_retry_eligible(e: SettlementError) -> bool {
    match e {
        SettlementError::Pricing(_) => false,
        SettlementError::Persistence(_) => true,
        SettlementError::Gateway(g) => spec_retry_eligible(g),
    }
}

impl SettlementError {
    /// Whether a client may retry after this failure.
    pub fn is_retry_eligible(&self) -> (r: bool)
        ensures
            r == spec_settlement_retry_eligible(*self),
    {
        match self {
            SettlementError::Pricing(_) => false,
            SettlementError::Persistence(_) => true,
            SettlementError::Gateway(g) => g.is_retry_eligible(),
        }
    }
}

/// The terminal result of one settlement attempt.
#[derive(Debug)]
pub enum SettlementOutcome {
    /// The gateway settled the charge; the order is persisted as paid.
    Settled { order_id: u64, invoice: Invoice, transaction: ChargeCreditCardResponse },
    /// The gateway definitively declined the card; the order stays persisted
    /// with no transaction id, awaiting manual reconciliation.
    Declined { order_id: u64, invoice: Invoice, message: String },
    /// The pipeline stopped: before persistence (`order_id` empty) on a
    /// pricing error, or after it on a storage or transport fault.
    Failed {
        order_id: Option<u64>,
        invoice: Option<Invoice>,
        error: SettlementError,
        retry_eligible: bool,
    },
}

/// The progress message published when an attempt starts charging.
pub fn processing_event_message() -> (m: String)
    ensures
        m@ == "Processing order"@,
{
    "Processing order".to_owned()
}

/// The gateway-agnostic charge request for a priced order: the invoice total
/// in whole cents, a fresh random order number of four digits, and the
/// customer exactly as submitted.
pub fn build_charge_request(customer: &Customer, invoice: &Invoice) -> (r: ChargeCreditCardRequest)
    requires
        invoice.wf(),
    ensures
        r.transaction_amount == invoice.total@ / 100,
        exists|n: nat| 1000 <= n < 10000 && r.order_number@ == #[trigger] spec_decimal(n),
        r.customer == *customer,
        r.invoice == *invoice,
{
    let amount: u64 = (invoice.total.units() as u64) / 100;
    let drawn: u64 = random_in_range(1000, 10000);
    let order_number = u64_to_string(drawn);
    proof {
        assert(order_number@ == spec_decimal(drawn as nat));
    }
    ChargeCreditCardRequest {
        transaction_amount: amount,
        order_number,
        customer: customer.clone(),
        invoice: *invoice,
    }
}

/// Folds the gateway's reply for order `order_id` into the store and names
/// the outcome.  A settled charge marks the order paid and records the
/// transaction id and the masked descriptor of `card_number`; a decline or a
/// transport fault leaves the order with no transaction id, under a terminal
/// status that records where the pipeline stopped.  Every other row and
/// column keeps its value.
pub fn apply_gateway_result(
    store: &mut MemoryStore,
    order_id: u64,
    invoice: &Invoice,
    card_number: &String,
    result: Result<ChargeCreditCardResponse, GatewayError>,
) -> (r: SettlementOutcome)
    requires
        old(store).wf(),
        1 <= order_id <= old(store).orders().len(),
        old(store).orders()[order_id - 1].status == OrderStatus::Created,
    ensures
        final(store).wf(),
        final(store).addresses() == old(store).addresses(),
        final(store).items() == old(store).items(),
        final(store).orders().len() == old(store).orders().len(),
        forall|i: int|
            0 <= i < final(store).orders().len() && i != order_id - 1 ==> final(store).orders()[i]
                == old(store).orders()[i],
        ({
            let row = final(store).orders()[order_id - 1];
            let prev = old(store).orders()[order_id - 1];
            &&& row.email == prev.email
            &&& row.billing_address_id == prev.billing_address_id
            &&& row.shipping_address_id == prev.shipping_address_id
            &&& row.tax_amount == prev.tax_amount
            &&& row.shipping_amount == prev.shipping_amount
            &&& row.total_amount == prev.total_amount
            &&& row.created_at == prev.created_at
            &&& match result {
                Ok(tx) => {
                    &&& (r matches SettlementOutcome::Settled { order_id: oid, invoice: inv, transaction }
                        && oid == order_id && inv == *invoice && transaction == tx)
                    &&& row.status == OrderStatus::Paid
                    &&& row.transaction_id == Some(tx.transaction_id)
                    &&& (row.card_type matches Some(t) && t@ == spec_card_type(card_number@))
                    &&& (row.card_last4 matches Some(l) && l@ == spec_last4(card_number@))
                },
                Err(GatewayError::Declined(msg)) => {
                    &&& (r matches SettlementOutcome::Declined { order_id: oid, invoice: inv, message }
                        && oid == order_id && inv == *invoice && message == msg)
                    &&& row.status == OrderStatus::Declined
                    &&& row.transaction_id is None
                    &&& row.card_type is None
                    &&& row.card_last4 is None
                },
                Err(e) => {
                    &&& (r matches SettlementOutcome::Failed { order_id: oid, invoice: inv, error, retry_eligible }
                        && oid == Some(order_id) && inv == Some(*invoice) && (error
                        matches SettlementError::Gateway(g) && g == e) && retry_eligible
                        == spec_retry_eligible(e))
                    &&& row.status == OrderStatus::Failed
                    &&& row.transaction_id is None
                    &&& row.card_type is None
                    &&& row.card_last4 is None
                },
            }
        }),
{
    match result {
        Ok(tx) => {
            let card = mask_card(card_number);
            store.update_order_settlement(
                order_id,
                OrderStatus::Paid,
                Some(tx.transaction_id.clone()),
                Some(card.card_type),
                Some(card.last4),
            );
            SettlementOutcome::Settled { order_id, invoice: *invoice, transaction: tx }
        },
        Err(GatewayError::Declined(msg)) => {
            store.update_order_settlement(order_id, OrderStatus::Declined, None, None, None);
            SettlementOutcome::Declined { order_id, invoice: *invoice, message: msg }
        },
        Err(e) => {
            store.update_order_settlement(order_id, OrderStatus::Failed, None, None, None);
            let retry_eligible = e.is_retry_eligible();
            SettlementOutcome::Failed {
                order_id: Some(order_id),
                invoice: Some(*invoice),
                error: SettlementError::Gateway(e),
                retry_eligible,
            }
        },
    }
}

/// One settlement attempt, end to end: price the cart, persist the aggregate
/// (addresses, then the order header, then its items), publish exactly one
/// progress event, then issue the single charge attempt and fold its outcome
/// into the order.
///
/// A pricing failure rejects the request before anything is persisted or
/// published.  Once priced, the aggregate is persisted whatever the gateway
/// answers: a decline and a transport fault differ only in the order's
/// terminal status and in whether the outcome is retry-eligible.
pub fn settle<P: PaymentProcessor>(
    store: &mut MemoryStore,
    notifier: &mut EventNotifier,
    processor: &P,
    customer: &Customer,
    items: &Vec<LineItem>,
    adjustments: &OrderAdjustments,
    now: u64,
) -> (r: SettlementOutcome)
    requires
        old(store).wf(),
        forall|k: int| 0 <= k < items@.len() ==> #[trigger] items@[k].valid(),
        adjustments.tax_rate <= RATE_MAX,
        adjustments.shipping_fee@ <= MONEY_MAX_UNITS as int,
    ensures
        final(store).wf(),
        !spec_adjustments_ok(*adjustments) ==> ((r matches SettlementOutcome::Failed {
            order_id,
            invoice,
            error,
            retry_eligible,
        } && order_id is None && invoice is None && (error matches SettlementError::Pricing(
            PricingError::InvalidAdjustment,
        )) && retry_eligible == false) && *final(store) == *old(store) && *final(notifier) == *old(
            notifier,
        )),
        (spec_adjustments_ok(*adjustments) && !spec_pricing_fits(items@, *adjustments)) ==> ((
        r matches SettlementOutcome::Failed { order_id, invoice, error, retry_eligible }
            && order_id is None && invoice is None && (error matches SettlementError::Pricing(
            PricingError::AmountOverflow,
        )) && retry_eligible == false) && *final(store) == *old(store) && *final(notifier) == *old(
            notifier,
        )),
        (spec_adjustments_ok(*adjustments) && spec_pricing_fits(items@, *adjustments)) ==> ({
            let oid = old(store).orders().len() + 1;
            &&& final(notifier)@ == old(notifier)@.push("Processing order"@)
            &&& final(store).addresses() == old(store).addresses().push(
                spec_address_row(*customer, customer.billing_address),
            ).push(spec_address_row(*customer, customer.shipping_address))
            &&& final(store).items() == old(store).items() + items@.map_values(
                |li: LineItem| spec_item_row(oid as u64, li),
            )
            &&& final(store).orders().len() == oid
            &&& forall|i: int|
                0 <= i < old(store).orders().len() ==> final(store).orders()[i] == old(
                    store,
                ).orders()[i]
            &&& ({
                let row = final(store).orders().last();
                &&& row.email == customer.email
                &&& row.billing_address_id == ((old(store).addresses().len() + 1) as u64)
                &&& row.shipping_address_id == ((old(store).addresses().len() + 2) as u64)
                &&& row.created_at == now
                &&& match r {
                    SettlementOutcome::Settled { order_id, invoice, transaction } => {
                        &&& order_id == oid
                        &&& spec_invoice_prices(invoice, items@, *adjustments)
                        &&& row.tax_amount == invoice.taxes
                        &&& row.shipping_amount == invoice.shipping
                        &&& row.total_amount == invoice.total
                        &&& row.status == OrderStatus::Paid
                        &&& row.transaction_id == Some(transaction.transaction_id)
                        &&& (row.card_type matches Some(t) && t@ == spec_card_type(
                            customer.credit_card.card_number@,
                        ))
                        &&& (row.card_last4 matches Some(l) && l@ == spec_last4(
                            customer.credit_card.card_number@,
                        ))
                    },
                    SettlementOutcome::Declined { order_id, invoice, message } => {
                        &&& order_id == oid
                        &&& spec_invoice_prices(invoice, items@, *adjustments)
                        &&& row.tax_amount == invoice.taxes
                        &&& row.shipping_amount == invoice.shipping
                        &&& row.total_amount == invoice.total
                        &&& row.status == OrderStatus::Declined
                        &&& row.transaction_id is None
                        &&& row.card_type is None
                        &&& row.card_last4 is None
                    },
                    SettlementOutcome::Failed { order_id, invoice, error, retry_eligible } => {
                        &&& order_id == Some(oid as u64)
                        &&& (invoice matches Some(inv) && spec_invoice_prices(
                            inv,
                            items@,
                            *adjustments,
                        ) && row.tax_amount == inv.taxes && row.shipping_amount == inv.shipping
                            && row.total_amount == inv.total)
                        &&& (error matches SettlementError::Gateway(g) && !(g
                            matches GatewayError::Declined(_)) && retry_eligible
                            == spec_retry_eligible(g))
                        &&& row.status == OrderStatus::Failed
                        &&& row.transaction_id is None
                        &&& row.card_type is None
                        &&& row.card_last4 is None
                    },
                }
            })
        }),
{
    let invoice = match Invoice::create(items, adjustments) {
        Ok(inv) => inv,
        Err(e) => {
            return SettlementOutcome::Failed {
                order_id: None,
                invoice: None,
                error: SettlementError::Pricing(e),
                retry_eligible: false,
            };
        },
    };
    let order_id = persist_aggregate(store, customer, &invoice, items, now);
    notifier.publish(processing_event_message());
    let request = build_charge_request(customer, &invoice);
    let result = processor.charge_card(&request);
    apply_gateway_result(store, order_id, &invoice, &customer.credit_card.card_number, result)
}

} // verus!
