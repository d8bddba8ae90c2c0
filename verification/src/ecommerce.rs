//! The invoice calculator and the order-domain value objects.
//!
//! `Invoice::compute` prices a cart: subtotal as the exact sum of
//! quantity times unit price, tax rounded half-to-even to the cent, a flat
//! shipping fee, and a total that is exactly their sum.  Negative adjustments
//! are rejected before any work, and amounts beyond the machine limit are
//! reported rather than wrapped.

use crate::money::{
    spec_amount_string, spec_tax_units, tax_units_checked, Money, MONEY_MAX_UNITS, RATE_MAX,
};
use crate::payment_processing::authorize_net::{Address, AuthorizeNetFee, CreditCard};
use crate::rng::random_u32;
use vstd::prelude::*;

verus! {

/// A flat discount amount.  Reserved for a future pricing policy; the current
/// calculator applies none.
#[derive(Clone, Copy, Debug)]
pub struct Discount {
    pub amount: usize,
}

/// One line of a submitted cart: a product reference, a positive quantity,
/// and the unit price in force at submission time.
#[derive(Clone, Debug)]
pub struct LineItem {
    pub product_ref: String,
    pub quantity: u32,
    pub unit_price: Money,
}

impl LineItem {
    /// A well-formed line item: a positive quantity and a non-negative unit
    /// price within the money range.
    pub open spec fn valid(&self) -> bool {
        &&& self.quantity >= 1
        &&& 0 <= self.unit_price@ <= MONEY_MAX_UNITS as int
    }

    /// Whether the line item is well formed.
    pub fn is_valid(&self) -> (r: bool)
        ensures
            r == self.valid(),
    {
        self.quantity >= 1 && !self.unit_price.is_negative() && self.unit_price.units()
            <= MONEY_MAX_UNITS
    }
}

/// The exact subtotal, in money units, of a sequence of line items:
/// the sum over the items of quantity times unit price.  Zero items yield
/// zero.
pub open spec fn spec_subtotal(items: Seq<LineItem>) -> int
    decreases items.len(),
{
    if items.len() == 0 {
        0
    } else {
        spec_subtotal(items.drop_last()) + items.last().quantity * items.last().unit_price@
    }
}

/// The subtotal of a set of zero line items is zero.
pub proof fn lemma_subtotal_empty(items: Seq<LineItem>)
    requires
        items.len() == 0,
    ensures
        spec_subtotal(items) == 0,
{
}

/// Extending a prefix of `items` by its next item adds that item's
/// contribution to the subtotal.
proof fn lemma_subtotal_step(items: Seq<LineItem>, i: int)
    requires
        0 <= i < items.len(),
    ensures
        spec_subtotal(items.take(i + 1)) == spec_subtotal(items.take(i))
            + items[i].quantity * items[i].unit_price@,
{
    assert(items.take(i + 1).drop_last() =~= items.take(i));
    assert(items.take(i + 1).last() == items[i]);
}

/// With valid line items every subtotal of a prefix is at most the subtotal
/// of the whole sequence (contributions are non-negative).
proof fn lemma_subtotal_prefix(items: Seq<LineItem>, i: int)
    requires
        0 <= i <= items.len(),
        forall|k: int| 0 <= k < items.len() ==> #[trigger] items[k].valid(),
    ensures
        spec_subtotal(items.take(i)) <= spec_subtotal(items),
    decreases items.len() - i,
{
    if i == items.len() {
        assert(items.take(i) =~= items);
    } else {
        lemma_subtotal_step(items, i);
        assert(items[i].valid());
        assert(items[i].quantity * items[i].unit_price@ >= 0) by (nonlinear_arith)
            requires
                items[i].quantity >= 0,
                items[i].unit_price@ >= 0,
        ;
        lemma_subtotal_prefix(items, i + 1);
    }
}

/// The pricing policy in force at submission time: a tax rate (a numerator
/// over `RATE_SCALE`) and a flat shipping fee.
#[derive(Clone, Copy, Debug)]
pub struct OrderAdjustments {
    /// Tax rate numerator over `RATE_SCALE`: `715` means 7.15%.
    pub tax_rate: i64,
    pub shipping_fee: Money,
}

/// Adjustments the calculator accepts: neither the tax rate nor the shipping
/// fee is negative.
pub open spec fn spec_adjustments_ok(adjustments: OrderAdjustments) -> bool {
    adjustments.tax_rate >= 0 && adjustments.shipping_fee@ >= 0
}

/// With acceptable adjustments, whether every amount of the priced invoice
/// stays within the money range.
pub open spec fn spec_pricing_fits(items: Seq<LineItem>, adjustments: OrderAdjustments) -> bool {
    let subtotal = spec_subtotal(items);
    let taxes = spec_tax_units(subtotal, adjustments.tax_rate as int);
    &&& subtotal <= MONEY_MAX_UNITS as int
    &&& taxes <= MONEY_MAX_UNITS as int
    &&& subtotal + adjustments.shipping_fee@ + taxes <= MONEY_MAX_UNITS as int
}

/// The relation between a priced invoice and its inputs: the subtotal is the
/// exact sum of quantity times unit price, the tax is the subtotal at the tax
/// rate rounded half-to-even to the cent, the shipping fee passes through,
/// and the total is exactly their sum.
pub open spec fn spec_invoice_prices(
    inv: Invoice,
    items: Seq<LineItem>,
    adjustments: OrderAdjustments,
) -> bool {
    &&& inv.subtotal@ == spec_subtotal(items)
    &&& inv.shipping@ == adjustments.shipping_fee@
    &&& inv.taxes@ == spec_tax_units(spec_subtotal(items), adjustments.tax_rate as int)
    &&& inv.total@ == inv.subtotal@ + inv.shipping@ + inv.taxes@
    &&& inv.wf()
}

/// Why a cart could not be priced: the client supplied a negative adjustment,
/// or an amount exceeded the machine limit on money values.
#[derive(Clone, Copy, Debug, PartialEq, Eq, Structural)]
pub enum PricingError {
    /// The tax rate or the shipping fee was negative.
    InvalidAdjustment,
    /// The subtotal, tax or total exceeded `MONEY_MAX_UNITS`.
    AmountOverflow,
}

/// The customer of one settlement attempt, with the addresses and card data
/// needed for the outbound charge call.
#[derive(Debug)]
pub struct Customer {
    pub first_name: String,
    pub last_name: String,
    pub email: String,
    pub phone_number: String,
    pub ip_address: String,
    pub billing_address: Address,
    pub shipping_address: Address,
    pub credit_card: CreditCard,
}

impl Clone for Customer {
    /// An exact copy of the customer.
    fn clone(&self) -> (res: Self)
        ensures
            res == *self,
    {
        Customer {
            first_name: self.first_name.clone(),
            last_name: self.last_name.clone(),
            email: self.email.clone(),
            phone_number: self.phone_number.clone(),
            ip_address: self.ip_address.clone(),
            billing_address: self.billing_address.clone(),
            shipping_address: self.shipping_address.clone(),
            credit_card: self.credit_card.clone(),
        }
    }
}

/// The priced breakdown of one order: subtotal, shipping, taxes and their
/// exact sum.  Computed once at submission time and never mutated.
#[derive(Clone, Copy, Debug)]
pub struct Invoice {
    pub id: u32,
    pub subtotal: Money,
    pub shipping: Money,
    pub taxes: Money,
    pub total: Money,
}

impl Invoice {
    /// The invoice invariant: every amount is a non-negative money value and
    /// the total is exactly subtotal plus shipping plus taxes.
    pub open spec fn wf(&self) -> bool {
        &&& self.total@ == self.subtotal@ + self.shipping@ + self.taxes@
        &&& 0 <= self.subtotal@ <= MONEY_MAX_UNITS as int
        &&& 0 <= self.shipping@ <= MONEY_MAX_UNITS as int
        &&& 0 <= self.taxes@ <= MONEY_MAX_UNITS as int
        &&& 0 <= self.total@ <= MONEY_MAX_UNITS as int
    }

    /// Prices a cart under the given adjustments, stamping the invoice with
    /// the given identifier.
    ///
    /// Succeeds exactly when the adjustments are non-negative and every
    /// amount fits the money range; then the subtotal is the exact sum of
    /// quantity times unit price, the tax is the subtotal at the tax rate
    /// rounded half-to-even to the cent, the shipping fee passes through,
    /// and the total is exactly their sum.
    pub fn compute(id: u32, items: &Vec<LineItem>, adjustments: &OrderAdjustments) -> (r: Result<
        Invoice,
        PricingError,
    >)
        requires
            forall|k: int| 0 <= k < items@.len() ==> #[trigger] items@[k].valid(),
            adjustments.tax_rate <= RATE_MAX,
            adjustments.shipping_fee@ <= MONEY_MAX_UNITS as int,
        ensures
            match r {
                Ok(inv) => {
                    &&& spec_adjustments_ok(*adjustments)
                    &&& spec_pricing_fits(items@, *adjustments)
                    &&& inv.id == id
                    &&& inv.subtotal@ == spec_subtotal(items@)
                    &&& inv.shipping@ == adjustments.shipping_fee@
                    &&& inv.taxes@ == spec_tax_units(spec_subtotal(items@), adjustments.tax_rate as int)
                    &&& inv.total@ == inv.subtotal@ + inv.shipping@ + inv.taxes@
                    &&& inv.wf()
                },
                Err(PricingError::InvalidAdjustment) => !spec_adjustments_ok(*adjustments),
                Err(PricingError::AmountOverflow) => spec_adjustments_ok(*adjustments)
                    && !spec_pricing_fits(items@, *adjustments),
            },
    {
        if adjustments.tax_rate < 0 || adjustments.shipping_fee.is_negative() {
            return Err(PricingError::InvalidAdjustment);
        }
        let ghost all_items = items@;
        let mut acc: i128 = 0;
        let mut idx: usize = 0;
        while idx < items.len()
            invariant
                0 <= idx <= items@.len(),
                items@ == all_items,
                forall|k: int| 0 <= k < items@.len() ==> #[trigger] items@[k].valid(),
                spec_adjustments_ok(*adjustments),
                acc as int == spec_subtotal(items@.take(idx as int)),
                0 <= acc <= MONEY_MAX_UNITS as int,
            decreases items@.len() - idx,
        {
            let item = &items[idx];
            proof {
                assert(items@[idx as int].valid());
                assert(
                    (item.quantity as int) * (item.unit_price@) <= 0x1_0000_0000
                        * (MONEY_MAX_UNITS as int)
                ) by (nonlinear_arith)
                    requires
                        0 <= item.quantity < 0x1_0000_0000,
                        0 <= item.unit_price@ <= MONEY_MAX_UNITS as int,
                ;
                assert((item.quantity as int) * (item.unit_price@) >= 0) by (nonlinear_arith)
                    requires
                        item.quantity >= 0,
                        item.unit_price@ >= 0,
                ;
                lemma_subtotal_step(items@, idx as int);
            }
            let contribution: i128 = (item.quantity as i128) * (item.unit_price.units() as i128);
            acc = acc + contribution;
            if acc > MONEY_MAX_UNITS as i128 {
                proof {
                    lemma_subtotal_prefix(items@, idx as int + 1);
                }
                return Err(PricingError::AmountOverflow);
            }
            idx = idx + 1;
        }
        proof {
            assert(items@.take(items@.len() as int) =~= items@);
        }
        let subtotal_units: i64 = acc as i64;
        let taxes_units: i64 = match tax_units_checked(subtotal_units, adjustments.tax_rate) {
            Some(t) => t,
            None => {
                return Err(PricingError::AmountOverflow);
            },
        };
        let shipping_units: i64 = adjustments.shipping_fee.units();
        let total_units: i64 = subtotal_units + shipping_units + taxes_units;
        if total_units > MONEY_MAX_UNITS {
            return Err(PricingError::AmountOverflow);
        }
        Ok(
            Invoice {
                id,
                subtotal: Money::from_units(subtotal_units),
                shipping: Money::from_units(shipping_units),
                taxes: Money::from_units(taxes_units),
                total: Money::from_units(total_units),
            },
        )
    }

    /// Prices a cart as `compute` does, stamping the invoice with a freshly
    /// drawn random identifier.
    pub fn create(items: &Vec<LineItem>, adjustments: &OrderAdjustments) -> (r: Result<
        Invoice,
        PricingError,
    >)
        requires
            forall|k: int| 0 <= k < items@.len() ==> #[trigger] items@[k].valid(),
            adjustments.tax_rate <= RATE_MAX,
            adjustments.shipping_fee@ <= MONEY_MAX_UNITS as int,
        ensures
            match r {
                Ok(inv) => {
                    &&& spec_adjustments_ok(*adjustments)
                    &&& spec_pricing_fits(items@, *adjustments)
                    &&& inv.subtotal@ == spec_subtotal(items@)
                    &&& inv.shipping@ == adjustments.shipping_fee@
                    &&& inv.taxes@ == spec_tax_units(spec_subtotal(items@), adjustments.tax_rate as int)
                    &&& inv.total@ == inv.subtotal@ + inv.shipping@ + inv.taxes@
                    &&& inv.wf()
                },
                Err(PricingError::InvalidAdjustment) => !spec_adjustments_ok(*adjustments),
                Err(PricingError::AmountOverflow) => spec_adjustments_ok(*adjustments)
                    && !spec_pricing_fits(items@, *adjustments),
            },
    {
        let id: u32 = random_u32();
        Invoice::compute(id, items, adjustments)
    }

    /// The shipping fee as a gateway fee line.
    pub fn get_shipping(&self) -> (r: AuthorizeNetFee)
        requires
            self.wf(),
        ensures
            r.name@ == "Shipping"@,
            r.description@ == "Flat rate shipping fee"@,
            r.amount@ == spec_amount_string(self.shipping@),
    {
        AuthorizeNetFee {
            name: "Shipping".to_owned(),
            description: "Flat rate shipping fee".to_owned(),
            amount: self.shipping.to_amount_string(),
        }
    }

    /// The tax amount as a gateway fee line.
    pub fn get_taxes(&self) -> (r: AuthorizeNetFee)
        requires
            self.wf(),
        ensures
            r.name@ == "Taxes"@,
            r.description@ == ""@,
            r.amount@ == spec_amount_string(self.taxes@),
    {
        AuthorizeNetFee {
            name: "Taxes".to_owned(),
            description: "".to_owned(),
            amount: self.taxes.to_amount_string(),
        }
    }

    /// The duty fee line: this service never charges duty, so the line is
    /// empty with a zero amount.
    pub fn get_duty(&self) -> (r: AuthorizeNetFee)
        ensures
            r.name@ == ""@,
            r.description@ == ""@,
            r.amount@ == "0"@,
    {
        AuthorizeNetFee {
            name: "".to_owned(),
            description: "".to_owned(),
            amount: "0".to_owned(),
        }
    }
}

} // verus!
