//! The order aggregate and its persistence model.
//!
//! One settlement attempt persists two address rows, one order header and one
//! row per line item, in that dependent order.  `MemoryStore` is the
//! library's store: rows are identified by their one-based insertion index,
//! and the store invariant `wf` says that every order-item row references an
//! existing order and every order references existing addresses, so an item
//! row can never point at an order that was not written first.

use crate::ecommerce::{Customer, Invoice, LineItem};
use crate::money::Money;
use crate::payment_processing::authorize_net::Address;
use vstd::prelude::*;

verus! {

/// Lifecycle state of a persisted order: `Created` until the gateway
/// answers, then exactly one of the terminal states.
#[derive(Clone, Copy, Debug, PartialEq, Eq, Structural)]
pub enum OrderStatus {
    /// Persisted; no gateway outcome yet.
    Created,
    /// The gateway settled the charge.
    Paid,
    /// The gateway definitively declined the card.
    Declined,
    /// The charge attempt failed for a retry-eligible reason.
    Failed,
}

/// The transitions the order lifecycle allows: an order is written as
/// `Created` and moves at most once, to a terminal state.
pub open spec fn spec_status_transition_ok(from: OrderStatus, to: OrderStatus) -> bool {
    from == OrderStatus::Created && (to == OrderStatus::Paid || to == OrderStatus::Declined || to
        == OrderStatus::Failed)
}

impl OrderStatus {
    /// The status as its persisted column value.
    pub fn as_str(&self) -> (s: &'static str)
        ensures
            match self {
                OrderStatus::Created => s@ == "created"@,
                OrderStatus::Paid => s@ == "paid"@,
                OrderStatus::Declined => s@ == "declined"@,
                OrderStatus::Failed => s@ == "failed"@,
            },
    {
        match self {
            OrderStatus::Created => "created",
            OrderStatus::Paid => "paid",
            OrderStatus::Declined => "declined",
            OrderStatus::Failed => "failed",
        }
    }
}

/// A persisted postal address row.
#[derive(Clone, Debug)]
pub struct AddressRow {
    pub first_name: String,
    pub last_name: String,
    pub street: String,
    pub city: String,
    pub state: String,
    pub postal_code: String,
    pub phone_number: String,
}

/// A persisted order header.  Card data appears only as the masked
/// descriptor; the full number and code are never stored.
#[derive(Debug)]
pub struct OrderRow {
    pub status: OrderStatus,
    pub email: String,
    pub billing_address_id: u64,
    pub shipping_address_id: u64,
    pub transaction_id: Option<String>,
    pub card_type: Option<String>,
    pub card_last4: Option<String>,
    pub tax_amount: Money,
    pub shipping_amount: Money,
    pub total_amount: Money,
    pub created_at: u64,
}

/// A persisted order line row, referencing its parent order.
#[derive(Clone, Debug)]
pub struct OrderItemRow {
    pub order_id: u64,
    pub product_ref: String,
    pub price: Money,
    pub qty: u32,
}

/// The address row persisted for `customer` at postal address `address`.
pub open spec fn spec_address_row(customer: Customer, address: Address) -> AddressRow {
    (AddressRow {
        first_name: customer.first_name,
        last_name: customer.last_name,
        street: address.address,
        city: address.city,
        state: address.state,
        postal_code: address.zip,
        phone_number: customer.phone_number,
    })
}

/// The order header persisted for an invoice before the gateway is called:
/// status `Created`, amounts verbatim from the invoice, no transaction id and
/// no card descriptor yet.
pub open spec fn spec_new_order_row(
    customer: Customer,
    invoice: Invoice,
    billing_address_id: u64,
    shipping_address_id: u64,
    created_at: u64,
) -> OrderRow {
    (OrderRow {
        status: OrderStatus::Created,
        email: customer.email,
        billing_address_id,
        shipping_address_id,
        transaction_id: None,
        card_type: None,
        card_last4: None,
        tax_amount: invoice.taxes,
        shipping_amount: invoice.shipping,
        total_amount: invoice.total,
        created_at,
    })
}

/// The item row persisted for one line item of order `order_id`.
pub open spec fn spec_item_row(order_id: u64, item: LineItem) -> OrderItemRow {
    (OrderItemRow {
        order_id,
        product_ref: item.product_ref,
        price: item.unit_price,
        qty: item.quantity,
    })
}

/// `row` with the gateway outcome folded in; every other column keeps its
/// value.
pub open spec fn spec_settled_row(
    row: OrderRow,
    status: OrderStatus,
    transaction_id: Option<String>,
    card_type: Option<String>,
    card_last4: Option<String>,
) -> OrderRow {
    (OrderRow { status, transaction_id, card_type, card_last4, ..row })
}

/// An in-memory order store: rows are identified by one-based insertion
/// index, like the auto-increment keys of the persisted schema.
#[derive(Debug)]
pub struct MemoryStore {
    addr_rows: Vec<AddressRow>,
    order_rows: Vec<OrderRow>,
    item_rows: Vec<OrderItemRow>,
}

impl MemoryStore {
    /// The persisted address rows, in insertion order.
    pub closed spec fn addresses(&self) -> Seq<AddressRow> {
        self.addr_rows@
    }

    /// The persisted order headers, in insertion order.
    pub closed spec fn orders(&self) -> Seq<OrderRow> {
        self.order_rows@
    }

    /// The persisted order-item rows, in insertion order.
    pub closed spec fn items(&self) -> Seq<OrderItemRow> {
        self.item_rows@
    }

    /// The referential invariant of the aggregate: every item row references
    /// an existing order, and every order references existing addresses.
    /// Write ordering (address, then order, then items) keeps it true.
    pub open spec fn wf(&self) -> bool {
        &&& forall|i: int|
            0 <= i < self.items().len() ==> 1 <= #[trigger] self.items()[i].order_id
                <= self.orders().len()
        &&& forall|i: int|
            0 <= i < self.orders().len() ==> (1 <= #[trigger] self.orders()[i].billing_address_id
                <= self.addresses().len() && 1 <= self.orders()[i].shipping_address_id
                <= self.addresses().len())
    }

    /// An empty store.
    pub fn new() -> (s: MemoryStore)
        ensures
            s.addresses() == Seq::<AddressRow>::empty(),
            s.orders() == Seq::<OrderRow>::empty(),
            s.items() == Seq::<OrderItemRow>::empty(),
            s.wf(),
    {
        let s = MemoryStore { addr_rows: Vec::new(), order_rows: Vec::new(), item_rows: Vec::new() };
        proof {
            assert(s.addresses() =~= Seq::<AddressRow>::empty());
            assert(s.orders() =~= Seq::<OrderRow>::empty());
            assert(s.items() =~= Seq::<OrderItemRow>::empty());
        }
        s
    }

    /// Persists one address row and returns its id.
    pub fn insert_address(&mut self, row: AddressRow) -> (id: u64)
        ensures
            final(self).addresses() == old(self).addresses().push(row),
            final(self).orders() == old(self).orders(),
            final(self).items() == old(self).items(),
            id == old(self).addresses().len() + 1,
            old(self).wf() ==> final(self).wf(),
    {
        self.addr_rows.push(row);
        proof {
            if old(self).wf() {
                assert forall|i: int| 0 <= i < self.items().len() implies 1 <= #[trigger] self.items()[i].order_id
                    <= self.orders().len() by {
                    assert(1 <= old(self).items()[i].order_id <= old(self).orders().len());
                }
                assert forall|i: int| 0 <= i < self.orders().len() implies (1 <= #[trigger] self.orders()[i].billing_address_id
                    <= self.addresses().len() && 1 <= self.orders()[i].shipping_address_id
                    <= self.addresses().len()) by {
                    assert(1 <= old(self).orders()[i].billing_address_id <= old(
                        self,
                    ).addresses().len());
                }
            }
        }
        self.addr_rows.len() as u64
    }

    /// Persists one order header and returns its id.  The header's address
    /// references must already exist: addresses are written first.
    pub fn insert_order(&mut self, row: OrderRow) -> (id: u64)
        requires
            1 <= row.billing_address_id <= old(self).addresses().len(),
            1 <= row.shipping_address_id <= old(self).addresses().len(),
        ensures
            final(self).addresses() == old(self).addresses(),
            final(self).orders() == old(self).orders().push(row),
            final(self).items() == old(self).items(),
            id == old(self).orders().len() + 1,
            old(self).wf() ==> final(self).wf(),
    {
        self.order_rows.push(row);
        proof {
            if old(self).wf() {
                assert forall|i: int| 0 <= i < self.items().len() implies 1 <= #[trigger] self.items()[i].order_id
                    <= self.orders().len() by {
                    assert(1 <= old(self).items()[i].order_id <= old(self).orders().len());
                }
                assert forall|i: int| 0 <= i < self.orders().len() implies (1 <= #[trigger] self.orders()[i].billing_address_id
                    <= self.addresses().len() && 1 <= self.orders()[i].shipping_address_id
                    <= self.addresses().len()) by {
                    if i < old(self).orders().len() {
                        assert(1 <= old(self).orders()[i].billing_address_id <= old(
                            self,
                        ).addresses().len());
                    }
                }
            }
        }
        self.order_rows.len() as u64
    }

    /// Persists one order-item row.  The row's parent order must already
    /// exist: the order header is written before its items.
    pub fn insert_order_item(&mut self, row: OrderItemRow)
        requires
            1 <= row.order_id <= old(self).orders().len(),
        ensures
            final(self).addresses() == old(self).addresses(),
            final(self).orders() == old(self).orders(),
            final(self).items() == old(self).items().push(row),
            old(self).wf() ==> final(self).wf(),
    {
        self.item_rows.push(row);
    }

    /// Folds a gateway outcome into an existing order header, moving it from
    /// `Created` to a terminal status; every other column keeps its value.
    pub fn update_order_settlement(
        &mut self,
        order_id: u64,
        status: OrderStatus,
        transaction_id: Option<String>,
        card_type: Option<String>,
        card_last4: Option<String>,
    )
        requires
            1 <= order_id <= old(self).orders().len(),
            spec_status_transition_ok(old(self).orders()[order_id - 1].status, status),
        ensures
            final(self).addresses() == old(self).addresses(),
            final(self).items() == old(self).items(),
            final(self).orders() == old(self).orders().update(
                order_id - 1,
                spec_settled_row(
                    old(self).orders()[order_id - 1],
                    status,
                    transaction_id,
                    card_type,
                    card_last4,
                ),
            ),
            old(self).wf() ==> final(self).wf(),
    {
        let idx: usize = (order_id - 1) as usize;
        let updated = OrderRow {
            status,
            email: self.order_rows[idx].email.clone(),
            billing_address_id: self.order_rows[idx].billing_address_id,
            shipping_address_id: self.order_rows[idx].shipping_address_id,
            transaction_id,
            card_type,
            card_last4,
            tax_amount: self.order_rows[idx].tax_amount,
            shipping_amount: self.order_rows[idx].shipping_amount,
            total_amount: self.order_rows[idx].total_amount,
            created_at: self.order_rows[idx].created_at,
        };
        self.order_rows.set(idx, updated);
        proof {
            if old(self).wf() {
                assert forall|i: int| 0 <= i < self.items().len() implies 1 <= #[trigger] self.items()[i].order_id
                    <= self.orders().len() by {
                    assert(1 <= old(self).items()[i].order_id <= old(self).orders().len());
                }
                assert forall|i: int| 0 <= i < self.orders().len() implies (1 <= #[trigger] self.orders()[i].billing_address_id
                    <= self.addresses().len() && 1 <= self.orders()[i].shipping_address_id
                    <= self.addresses().len()) by {
                    assert(1 <= old(self).orders()[i].billing_address_id <= old(
                        self,
                    ).addresses().len());
                    if i != idx {
                        assert(self.orders()[i] == old(self).orders()[i]);
                    }
                }
            }
        }
    }

    /// The number of persisted address rows.
    pub fn address_count(&self) -> (n: usize)
        ensures
            n == self.addresses().len(),
    {
        self.addr_rows.len()
    }

    /// The number of persisted order headers.
    pub fn order_count(&self) -> (n: usize)
        ensures
            n == self.orders().len(),
    {
        self.order_rows.len()
    }

    /// The number of persisted order-item rows.
    pub fn item_count(&self) -> (n: usize)
        ensures
            n == self.items().len(),
    {
        self.item_rows.len()
    }

    /// The address row at zero-based index `i`.
    pub fn get_address(&self, i: usize) -> (r: &AddressRow)
        requires
            i < self.addresses().len(),
        ensures
            *r == self.addresses()[i as int],
    {
        &self.addr_rows[i]
    }

    /// The order header at zero-based index `i`.
    pub fn get_order(&self, i: usize) -> (r: &OrderRow)
        requires
            i < self.orders().len(),
        ensures
            *r == self.orders()[i as int],
    {
        &self.order_rows[i]
    }

    /// The order-item row at zero-based index `i`.
    pub fn get_item(&self, i: usize) -> (r: &OrderItemRow)
        requires
            i < self.items().len(),
        ensures
            *r == self.items()[i as int],
    {
        &self.item_rows[i]
    }
}

/// The address row to persist for `customer` at `address`, as
/// `spec_address_row` describes.
pub fn build_address_row(customer: &Customer, address: &Address) -> (r: AddressRow)
    ensures
        r == spec_address_row(*customer, *address),
{
    AddressRow {
        first_name: customer.first_name.clone(),
        last_name: customer.last_name.clone(),
        street: address.address.clone(),
        city: address.city.clone(),
        state: address.state.clone(),
        postal_code: address.zip.clone(),
        phone_number: customer.phone_number.clone(),
    }
}

/// Persists one order aggregate in dependent order: the billing address, the
/// shipping address (its own row even when identical), the order header
/// referencing both, then one item row per line item, each referencing the
/// new order.  Returns the new order's id.
pub fn persist_aggregate(
    store: &mut MemoryStore,
    customer: &Customer,
    invoice: &Invoice,
    items: &Vec<LineItem>,
    now: u64,
) -> (order_id: u64)
    requires
        old(store).wf(),
    ensures
        final(store).wf(),
        final(store).addresses() == old(store).addresses().push(
            spec_address_row(*customer, customer.billing_address),
        ).push(spec_address_row(*customer, customer.shipping_address)),
        final(store).orders() == old(store).orders().push(
            spec_new_order_row(
                *customer,
                *invoice,
                (old(store).addresses().len() + 1) as u64,
                (old(store).addresses().len() + 2) as u64,
                now,
            ),
        ),
        order_id == old(store).orders().len() + 1,
        final(store).items() == old(store).items() + items@.map_values(
            |li: LineItem| spec_item_row(order_id, li),
        ),
{
    let billing_id = store.insert_address(build_address_row(customer, &customer.billing_address));
    let shipping_id = store.insert_address(build_address_row(customer, &customer.shipping_address));
    let order_row = OrderRow {
        status: OrderStatus::Created,
        email: customer.email.clone(),
        billing_address_id: billing_id,
        shipping_address_id: shipping_id,
        transaction_id: None,
        card_type: None,
        card_last4: None,
        tax_amount: invoice.taxes,
        shipping_amount: invoice.shipping,
        total_amount: invoice.total,
        created_at: now,
    };
    let order_id = store.insert_order(order_row);
    let ghost store_after_order = *store;
    let mut idx: usize = 0;
    while idx < items.len()
        invariant
            0 <= idx <= items@.len(),
            1 <= order_id <= store.orders().len(),
            store.wf(),
            store.addresses() == store_after_order.addresses(),
            store.orders() == store_after_order.orders(),
            store.items() == store_after_order.items() + items@.take(idx as int).map_values(
                |li: LineItem| spec_item_row(order_id, li),
            ),
        decreases items@.len() - idx,
    {
        let item = &items[idx];
        store.insert_order_item(
            OrderItemRow {
                order_id,
                product_ref: item.product_ref.clone(),
                price: item.unit_price,
                qty: item.quantity,
            },
        );
        proof {
            assert(items@.take(idx as int + 1).map_values(
                |li: LineItem| spec_item_row(order_id, li),
            ) =~= items@.take(idx as int).map_values(|li: LineItem| spec_item_row(order_id, li)).push(
                spec_item_row(order_id, items@[idx as int]),
            ));
        }
        idx = idx + 1;
    }
    proof {
        assert(items@.take(items@.len() as int) =~= items@);
    }
    order_id
}

} // verus!
