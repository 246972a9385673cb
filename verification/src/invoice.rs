//! Building an invoice request from a closed purchase.
//!
//! The mapping rule: one invoice line per purchase item; one synthetic
//! negative-price line for a commitment discount if a commitment was
//! applied; one synthetic negative-price line for burned loyalty points.
//! For both synthetic lines the net amount is back-calculated from the
//! gross amount as `round(gross / 1.27)`.

use vstd::prelude::*;

use crate::cart::PaymentKindForm;
use crate::error::ApiError;
use crate::money::net_of_gross;
use crate::money::net_from_gross;
use crate::purchase::{ItemForm, PurchaseForm};
use crate::text::dec_digits;
use crate::text::msg_with_id;

verus! {

/// Customer block of an invoice request.
#[derive(Debug, Clone)]
pub struct InvoiceCustomer {
    pub id: u32,
    pub name: String,
    pub tax_number: String,
    pub zip: String,
    pub location: String,
    pub street: String,
    pub email: String,
}

/// A line item of an invoice request.
#[derive(Debug, Clone)]
pub struct InvoiceItem {
    pub name: String,
    pub quantity: i32,
    pub unit: String,
    pub price_unit_net: i32,
    pub vat: String,
    pub total_price_net: i32,
    pub total_price_vat: i32,
    pub total_price_gross: i32,
    pub comment: String,
}

/// The invoice request handed to the invoice service.
#[derive(Debug, Clone)]
pub struct InvoiceForm {
    pub purchase_id: String,
    pub customer: InvoiceCustomer,
    pub items: Vec<InvoiceItem>,
    pub payment_kind: PaymentKindForm,
    pub payment_duedate: String,
    pub date: String,
    pub completion_date: String,
    pub total_net: i32,
    pub total_vat: i32,
    pub total_gross: i32,
    pub created_by: u32,
}

/// A purchase item whose counted and priced fields fit the invoice
/// service's signed fields.
pub open spec fn purchase_item_in_range(i: ItemForm) -> bool {
    &&& i.piece <= i32::MAX
    &&& i.retail_price_net <= i32::MAX
    &&& i.total_retail_price_net <= i32::MAX
    &&& i.total_retail_price_gross <= i32::MAX
}

/// A commitment discount was applied to the purchase.
pub open spec fn has_commitment(p: PurchaseForm) -> bool {
    p.commitment_id@.len() > 0
}

/// Loyalty points were burned on the purchase.
pub open spec fn has_burned_points(p: PurchaseForm) -> bool {
    p.loyalty_card matches Some(lc) && lc.burned_points != 0
}

/// Every amount of the purchase fits the invoice service's signed fields.
pub open spec fn invoice_ranges_ok(p: PurchaseForm) -> bool {
    &&& forall|i: int|
        0 <= i < p.items@.len() ==> purchase_item_in_range(#[trigger] p.items@[i])
    &&& has_commitment(p) ==> p.commitment_discount_amount_gross <= i32::MAX
    &&& has_burned_points(p) ==> p.loyalty_card->Some_0.burned_points > i32::MIN
    &&& p.total_net_price <= i32::MAX
    &&& p.total_vat <= i32::MAX
    &&& p.total_gross_price <= i32::MAX
}

/// How an invoice line relates to the purchase item it bills.
pub open spec fn invoice_item_of(i: ItemForm, it: InvoiceItem) -> bool {
    &&& it.name == i.name
    &&& it.quantity == i.piece as int
    &&& it.unit@ == "pc"@
    &&& it.price_unit_net == i.retail_price_net as int
    &&& it.vat == i.vat
    &&& it.total_price_net == i.total_retail_price_net as int
    &&& it.total_price_vat == i.total_retail_price_gross - i.total_retail_price_net
    &&& it.total_price_gross == i.total_retail_price_gross as int
    &&& it.comment@.len() == 0
}

/// The synthetic negative-price line for an applied commitment discount.
pub open spec fn commitment_line_of(p: PurchaseForm, it: InvoiceItem) -> bool {
    let gross = -(p.commitment_discount_amount_gross as int);
    let net = net_of_gross(gross);
    &&& it.name@ == "Commitment discount "@ + dec_digits(
        p.commitment_discount_percentage as nat,
    ) + "%"@
    &&& it.quantity == 1
    &&& it.unit@ == "pc"@
    &&& it.price_unit_net == net
    &&& it.vat@ == "27"@
    &&& it.total_price_net == net
    &&& it.total_price_vat == gross - net
    &&& it.total_price_gross == gross
    &&& it.comment@ == "Commitment id: "@ + p.commitment_id@
}

/// The synthetic negative-price line for burned loyalty points.
pub open spec fn loyalty_line_of(p: PurchaseForm, it: InvoiceItem) -> bool {
    let gross = -(p.loyalty_card->Some_0.burned_points as int);
    let net = net_of_gross(gross);
    &&& it.name@ == "Loyalty discount"@
    &&& it.quantity == 1
    &&& it.unit@ == "pc"@
    &&& it.price_unit_net == net
    &&& it.vat@ == "27"@
    &&& it.total_price_net == net
    &&& it.total_price_vat == gross - net
    &&& it.total_price_gross == gross
    &&& it.comment@ == "Loyalty account: "@ + p.loyalty_card->Some_0.account_id@
}

/// How the customer block relates to the purchase's customer, with empty
/// defaults when the purchase has none.
pub open spec fn invoice_customer_of(p: PurchaseForm, c: InvoiceCustomer) -> bool {
    &&& match p.customer {
        Some(cu) => {
            &&& c.id == cu.id
            &&& c.name == cu.name
            &&& c.tax_number == cu.tax_number
            &&& c.zip == cu.zip
            &&& c.location == cu.location
            &&& c.street == cu.street
        },
        None => {
            &&& c.id == 0
            &&& c.name@.len() == 0
            &&& c.tax_number@.len() == 0
            &&& c.zip@.len() == 0
            &&& c.location@.len() == 0
            &&& c.street@.len() == 0
        },
    }
    &&& c.email@.len() == 0
}

/// How a whole invoice request relates to the purchase it bills, for a
/// given issuing date.
pub open spec fn invoice_form_of(p: PurchaseForm, inv: InvoiceForm) -> bool {
    let base = p.items@.len() as int;
    let extra_commitment: int = if has_commitment(p) {
        1
    } else {
        0
    };
    &&& inv.purchase_id == p.purchase_id
    &&& invoice_customer_of(p, inv.customer)
    &&& inv.items@.len() == base + extra_commitment + if has_burned_points(p) {
        1int
    } else {
        0int
    }
    &&& forall|i: int| 0 <= i < base ==> invoice_item_of(p.items@[i], #[trigger] inv.items@[i])
    &&& has_commitment(p) ==> commitment_line_of(p, inv.items@[base])
    &&& has_burned_points(p) ==> loyalty_line_of(p, inv.items@[base + extra_commitment])
    &&& inv.payment_kind == p.payment_kind
    &&& inv.payment_duedate == p.payment_duedate
    &&& inv.completion_date == p.date_completion
    &&& inv.total_net == p.total_net_price as int
    &&& inv.total_vat == p.total_vat as int
    &&& inv.total_gross == p.total_gross_price as int
    &&& inv.created_by == p.created_by
}

impl InvoiceForm {
    /// Builds the invoice request for a purchase, issued at `date`.
    /// Fails with an internal error exactly when an amount of the purchase
    /// does not fit the invoice service's signed fields: such an amount
    /// marks a corrupted upstream record.
    pub fn from_purchase(p: &PurchaseForm, date: String) -> (r: Result<InvoiceForm, ApiError>)
        ensures
            r is Ok <==> invoice_ranges_ok(*p),
            r matches Ok(inv) ==> invoice_form_of(*p, inv) && inv.date == date,
            r matches Err(e) ==> e is InternalError,
    {
        let mut items: Vec<InvoiceItem> = Vec::new();
        let mut i: usize = 0;
        while i < p.items.len()
            invariant
                i <= p.items.len(),
                items.len() == i,
                forall|j: int|
                    0 <= j < i ==> purchase_item_in_range(#[trigger] p.items@[j]),
                forall|j: int|
                    0 <= j < i ==> invoice_item_of(p.items@[j], #[trigger] items@[j]),
            decreases p.items.len() - i,
        {
            let it = &p.items[i];
            if it.piece > 0x7fff_ffff || it.retail_price_net > 0x7fff_ffff
                || it.total_retail_price_net > 0x7fff_ffff
                || it.total_retail_price_gross > 0x7fff_ffff {
                proof {
                    assert(!purchase_item_in_range(p.items@[i as int]));
                }
                return Err(ApiError::internal_error("purchase item amount is out of range"));
            }
            items.push(InvoiceItem {
                name: it.name.clone(),
                quantity: it.piece as i32,
                unit: String::from_str("pc"),
                price_unit_net: it.retail_price_net as i32,
                vat: it.vat.clone(),
                total_price_net: it.total_retail_price_net as i32,
                total_price_vat: (it.total_retail_price_gross as i32) - (it.total_retail_price_net
                    as i32),
                total_price_gross: it.total_retail_price_gross as i32,
                comment: String::new(),
            });
            i = i + 1;
        }

        // Synthetic line for an applied commitment discount.
        if p.commitment_id.as_str().unicode_len() > 0 {
            if p.commitment_discount_amount_gross > 0x7fff_ffff {
                return Err(
                    ApiError::internal_error("commitment discount amount is out of range"),
                );
            }
            let gross: i32 = -(p.commitment_discount_amount_gross as i32);
            let net: i32 = net_from_gross(gross);
            let mut name = msg_with_id("Commitment discount ", p.commitment_discount_percentage);
            name.append("%");
            let comment = String::from_str("Commitment id: ").concat(p.commitment_id.as_str());
            items.push(InvoiceItem {
                name,
                quantity: 1,
                unit: String::from_str("pc"),
                price_unit_net: net,
                vat: String::from_str("27"),
                total_price_net: net,
                total_price_vat: gross - net,
                total_price_gross: gross,
                comment,
            });
        }

        // Synthetic line for burned loyalty points.
        match &p.loyalty_card {
            Some(lc) => {
                if lc.burned_points != 0 {
                    if lc.burned_points == i32::MIN {
                        return Err(
                            ApiError::internal_error("burned loyalty points are out of range"),
                        );
                    }
                    let gross: i32 = -lc.burned_points;
                    let net: i32 = net_from_gross(gross);
                    let comment = String::from_str("Loyalty account: ").concat(
                        lc.account_id.as_str(),
                    );
                    items.push(InvoiceItem {
                        name: String::from_str("Loyalty discount"),
                        quantity: 1,
                        unit: String::from_str("pc"),
                        price_unit_net: net,
                        vat: String::from_str("27"),
                        total_price_net: net,
                        total_price_vat: gross - net,
                        total_price_gross: gross,
                        comment,
                    });
                }
            },
            None => {},
        }

        if p.total_net_price > 0x7fff_ffff || p.total_vat > 0x7fff_ffff || p.total_gross_price
            > 0x7fff_ffff {
            return Err(ApiError::internal_error("purchase total is out of range"));
        }

        let customer = match &p.customer {
            Some(cu) => InvoiceCustomer {
                id: cu.id,
                name: cu.name.clone(),
                tax_number: cu.tax_number.clone(),
                zip: cu.zip.clone(),
                location: cu.location.clone(),
                street: cu.street.clone(),
                email: String::new(),
            },
            None => InvoiceCustomer {
                id: 0,
                name: String::new(),
                tax_number: String::new(),
                zip: String::new(),
                location: String::new(),
                street: String::new(),
                email: String::new(),
            },
        };

        Ok(InvoiceForm {
            purchase_id: p.purchase_id.clone(),
            customer,
            items,
            payment_kind: p.payment_kind,
            payment_duedate: p.payment_duedate.clone(),
            date,
            completion_date: p.date_completion.clone(),
            total_net: p.total_net_price as i32,
            total_vat: p.total_vat as i32,
            total_gross: p.total_gross_price as i32,
            created_by: p.created_by,
        })
    }

    /// Builds the invoice request for a purchase, issued now.
    pub fn from_purchase_now(p: &PurchaseForm) -> (r: Result<InvoiceForm, ApiError>)
        ensures
            r is Ok <==> invoice_ranges_ok(*p),
            r matches Ok(inv) ==> invoice_form_of(*p, inv),
            r matches Err(e) ==> e is InternalError,
    {
        InvoiceForm::from_purchase(p, now_rfc3339())
    }
}

/// Relies on chrono's `Utc::now` and `DateTime::to_rfc3339`: the current
/// UTC time rendered as an RFC 3339 timestamp. The result depends on the
/// clock, so nothing is promised of its value.
#[verifier::external_body]
fn now_rfc3339() -> String {
    chrono::Utc::now().to_rfc3339()
}

} // verus!
