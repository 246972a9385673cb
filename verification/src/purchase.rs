//! The purchase: the immutable snapshot produced when a cart is closed.
//! It mirrors the cart's financial and item data and, when an invoice was
//! requested, carries a reference to the generated invoice.

use vstd::prelude::*;

use crate::cart::{
    payment_kind_from_code, spec_payment_kind, upl_info_forms_of, upl_info_kinds_present,
    CustomerForm, PaymentForm, PaymentKindForm, UplInfoForm, UplInfoObj,
};
use crate::error::ApiError;
use crate::upl::clone_string_vec;

verus! {

/// Kind of a purchase line item.
#[derive(Debug, Clone, Copy, PartialEq, Eq, Structural)]
pub enum ItemKindForm {
    Sku,
    DerivedProduct,
    DepreciatedSku,
}

/// A line item of a purchase.
#[derive(Debug)]
pub struct ItemForm {
    pub kind: ItemKindForm,
    pub product_id: u32,
    pub name: String,
    pub piece: u32,
    pub retail_price_net: u32,
    pub vat: String,
    pub retail_price_gross: u32,
    pub total_retail_price_net: u32,
    pub total_retail_price_gross: u32,
    pub upl_ids: Vec<String>,
}

impl Clone for ItemForm {
    fn clone(&self) -> (res: Self)
        ensures
            res.kind == self.kind,
            res.product_id == self.product_id,
            res.name == self.name,
            res.piece == self.piece,
            res.retail_price_net == self.retail_price_net,
            res.vat == self.vat,
            res.retail_price_gross == self.retail_price_gross,
            res.total_retail_price_net == self.total_retail_price_net,
            res.total_retail_price_gross == self.total_retail_price_gross,
            res.upl_ids@ == self.upl_ids@,
    {
        ItemForm {
            kind: self.kind,
            product_id: self.product_id,
            name: self.name.clone(),
            piece: self.piece,
            retail_price_net: self.retail_price_net,
            vat: self.vat.clone(),
            retail_price_gross: self.retail_price_gross,
            total_retail_price_net: self.total_retail_price_net,
            total_retail_price_gross: self.total_retail_price_gross,
            upl_ids: clone_string_vec(&self.upl_ids),
        }
    }
}

/// A burned-loyalty-points transaction recorded on a purchase.
#[derive(Debug)]
pub struct LoyaltyTransaction {
    pub loyalty_account_id: String,
    pub transaction_id: String,
    pub burned_points: i32,
}

impl Clone for LoyaltyTransaction {
    fn clone(&self) -> (res: Self)
        ensures
            res == *self,
    {
        LoyaltyTransaction {
            loyalty_account_id: self.loyalty_account_id.clone(),
            transaction_id: self.transaction_id.clone(),
            burned_points: self.burned_points,
        }
    }
}

/// Loyalty-card summary of a purchase.
#[derive(Debug)]
pub struct LoyaltyCard {
    pub account_id: String,
    pub card_id: String,
    pub loyalty_level: String,
    pub balance_opening: i32,
    pub burned_points: i32,
    pub earned_points: i32,
    pub balance_closing: i32,
}

impl Clone for LoyaltyCard {
    fn clone(&self) -> (res: Self)
        ensures
            res == *self,
    {
        LoyaltyCard {
            account_id: self.account_id.clone(),
            card_id: self.card_id.clone(),
            loyalty_level: self.loyalty_level.clone(),
            balance_opening: self.balance_opening,
            burned_points: self.burned_points,
            earned_points: self.earned_points,
            balance_closing: self.balance_closing,
        }
    }
}

/// A purchase line item as the purchase service hands it over; the kind
/// arrives as a raw integer code.
#[derive(Debug, Clone)]
pub struct PurchaseItemObj {
    pub kind: i32,
    pub product_id: u32,
    pub name: String,
    pub piece: u32,
    pub retail_price_net: u32,
    pub vat: String,
    pub retail_price_gross: u32,
    pub total_retail_price_net: u32,
    pub total_retail_price_gross: u32,
    pub upl_ids: Vec<String>,
}

/// The purchase aggregate as the purchase service hands it over.
#[derive(Debug, Clone)]
pub struct PurchaseObj {
    pub id: String,
    pub customer: Option<CustomerForm>,
    pub commitment_id: String,
    pub commitment_discount_percentage: u32,
    pub commitment_discount_amount_gross: u32,
    pub loyalty_card: Option<LoyaltyCard>,
    pub burned_loyalty_points: u32,
    pub items: Vec<PurchaseItemObj>,
    pub upl_info_objects: Vec<UplInfoObj>,
    pub need_invoice: bool,
    pub invoice_id: String,
    pub total_net: u32,
    pub total_vat: u32,
    pub total_gross: u32,
    pub payment_kind: i32,
    pub payments: Vec<PaymentForm>,
    pub burned_points: Vec<LoyaltyTransaction>,
    pub payable: i32,
    pub payment_balance: i32,
    pub date_completion: String,
    pub payment_duedate: String,
    pub profit_net: i32,
    pub restored: bool,
    pub owner_uid: u32,
    pub created_by: u32,
    pub created_at: String,
}

/// The purchase as it is reported outward.
#[derive(Debug, Clone)]
pub struct PurchaseForm {
    pub purchase_id: String,
    pub customer: Option<CustomerForm>,
    pub commitment_id: String,
    pub commitment_discount_percentage: u32,
    pub commitment_discount_amount_gross: u32,
    pub loyalty_card: Option<LoyaltyCard>,
    pub burned_loyalty_points: u32,
    pub items: Vec<ItemForm>,
    pub upl_info_objects: Vec<UplInfoForm>,
    pub need_invoice: bool,
    pub invoice_id: String,
    pub total_net_price: u32,
    pub total_vat: u32,
    pub total_gross_price: u32,
    pub payment_kind: PaymentKindForm,
    pub payments: Vec<PaymentForm>,
    pub burned_points: Vec<LoyaltyTransaction>,
    pub payable: i32,
    pub payment_balance: i32,
    pub date_completion: String,
    pub payment_duedate: String,
    pub profit_net: i32,
    pub restored: bool,
    pub owner_uid: u32,
    pub created_by: u32,
    pub created_at: String,
}

/// The item kind a raw wire code stands for.
pub open spec fn spec_item_kind(k: int) -> Option<ItemKindForm> {
    if k == 0 {
        Some(ItemKindForm::Sku)
    } else if k == 1 {
        Some(ItemKindForm::DerivedProduct)
    } else if k == 2 {
        Some(ItemKindForm::DepreciatedSku)
    } else {
        None
    }
}

/// Decodes a raw item-kind code; an unknown code marks a corrupted
/// upstream record.
pub fn item_kind_from_code(k: i32) -> (r: Result<ItemKindForm, ApiError>)
    ensures
        match r {
            Ok(p) => spec_item_kind(k as int) == Some(p),
            Err(e) => spec_item_kind(k as int) is None && e is InternalError,
        },
{
    if k == 0 {
        Ok(ItemKindForm::Sku)
    } else if k == 1 {
        Ok(ItemKindForm::DerivedProduct)
    } else if k == 2 {
        Ok(ItemKindForm::DepreciatedSku)
    } else {
        Err(ApiError::internal_error("purchase item has an unknown kind code"))
    }
}

/// How a reported purchase item relates to the wire item.
pub open spec fn purchase_item_of(o: PurchaseItemObj, f: ItemForm) -> bool {
    &&& spec_item_kind(o.kind as int) == Some(f.kind)
    &&& f.product_id == o.product_id
    &&& f.name == o.name
    &&& f.piece == o.piece
    &&& f.retail_price_net == o.retail_price_net
    &&& f.vat == o.vat
    &&& f.retail_price_gross == o.retail_price_gross
    &&& f.total_retail_price_net == o.total_retail_price_net
    &&& f.total_retail_price_gross == o.total_retail_price_gross
    &&& f.upl_ids@ == o.upl_ids@
}

/// All wire purchase items carry a known kind code.
pub open spec fn purchase_item_kinds_known(v: Seq<PurchaseItemObj>) -> bool {
    forall|i: int| 0 <= i < v.len() ==> (#[trigger] spec_item_kind(v[i].kind as int)) is Some
}

/// The reported forms of a whole group of wire purchase items.
pub open spec fn purchase_items_of(v: Seq<PurchaseItemObj>, fs: Seq<ItemForm>) -> bool {
    &&& fs.len() == v.len()
    &&& forall|i: int| 0 <= i < v.len() ==> purchase_item_of(v[i], #[trigger] fs[i])
}

fn purchase_items(v: &Vec<PurchaseItemObj>) -> (r: Result<Vec<ItemForm>, ApiError>)
    ensures
        r is Ok <==> purchase_item_kinds_known(v@),
        r matches Ok(fs) ==> purchase_items_of(v@, fs@),
        r matches Err(e) ==> e is InternalError,
{
    let mut fs: Vec<ItemForm> = Vec::new();
    let mut i: usize = 0;
    while i < v.len()
        invariant
            i <= v.len(),
            fs.len() == i,
            forall|j: int| 0 <= j < i ==> purchase_item_of(v@[j], #[trigger] fs@[j]),
        decreases v.len() - i,
    {
        let o = &v[i];
        let kind = match item_kind_from_code(o.kind) {
            Ok(k) => k,
            Err(e) => {
                proof {
                    assert(!(spec_item_kind(v@[i as int].kind as int) is Some));
                }
                return Err(e);
            },
        };
        fs.push(ItemForm {
            kind,
            product_id: o.product_id,
            name: o.name.clone(),
            piece: o.piece,
            retail_price_net: o.retail_price_net,
            vat: o.vat.clone(),
            retail_price_gross: o.retail_price_gross,
            total_retail_price_net: o.total_retail_price_net,
            total_retail_price_gross: o.total_retail_price_gross,
            upl_ids: clone_string_vec(&o.upl_ids),
        });
        i = i + 1;
    }
    proof {
        assert forall|j: int| 0 <= j < v@.len() implies (#[trigger] spec_item_kind(
            v@[j].kind as int,
        )) is Some by {
            assert(purchase_item_of(v@[j], fs@[j]));
        }
    }
    Ok(fs)
}

fn upl_info_forms(v: &Vec<UplInfoObj>) -> (r: Result<Vec<UplInfoForm>, ApiError>)
    ensures
        r is Ok <==> upl_info_kinds_present(v@),
        r matches Ok(fs) ==> upl_info_forms_of(v@, fs@),
        r matches Err(e) ==> e is InternalError,
{
    let mut fs: Vec<UplInfoForm> = Vec::new();
    let mut i: usize = 0;
    while i < v.len()
        invariant
            i <= v.len(),
            fs.len() == i,
            forall|j: int| 0 <= j < i ==> crate::cart::upl_info_form_of(
                v@[j],
                #[trigger] fs@[j],
            ),
        decreases v.len() - i,
    {
        match UplInfoForm::from_info_obj(&v[i]) {
            Ok(f) => {
                fs.push(f);
            },
            Err(e) => {
                proof {
                    assert(!(v@[i as int].upl_kind is Some));
                }
                return Err(e);
            },
        }
        i = i + 1;
    }
    proof {
        assert forall|j: int| 0 <= j < v@.len() implies (#[trigger] v@[j].upl_kind) is Some by {
            assert(crate::cart::upl_info_form_of(v@[j], fs@[j]));
        }
    }
    Ok(fs)
}

fn clone_payments(v: &Vec<PaymentForm>) -> (r: Vec<PaymentForm>)
    ensures
        r@ == v@,
{
    let mut r: Vec<PaymentForm> = Vec::new();
    let mut i: usize = 0;
    while i < v.len()
        invariant
            i <= v.len(),
            r@ =~= v@.subrange(0, i as int),
        decreases v.len() - i,
    {
        r.push(v[i].clone());
        i = i + 1;
    }
    proof {
        assert(r@ =~= v@);
    }
    r
}

fn clone_loyalty_transactions(v: &Vec<LoyaltyTransaction>) -> (r: Vec<LoyaltyTransaction>)
    ensures
        r@ == v@,
{
    let mut r: Vec<LoyaltyTransaction> = Vec::new();
    let mut i: usize = 0;
    while i < v.len()
        invariant
            i <= v.len(),
            r@ =~= v@.subrange(0, i as int),
        decreases v.len() - i,
    {
        r.push(v[i].clone());
        i = i + 1;
    }
    proof {
        assert(r@ =~= v@);
    }
    r
}

/// The purchase aggregate decodes cleanly.
pub open spec fn purchase_obj_well_formed(p: PurchaseObj) -> bool {
    &&& spec_payment_kind(p.payment_kind as int) is Some
    &&& purchase_item_kinds_known(p.items@)
    &&& upl_info_kinds_present(p.upl_info_objects@)
}

/// How the reported purchase relates to the wire aggregate.
pub open spec fn purchase_form_of(p: PurchaseObj, f: PurchaseForm) -> bool {
    &&& f.purchase_id == p.id
    &&& f.customer == p.customer
    &&& f.commitment_id == p.commitment_id
    &&& f.commitment_discount_percentage == p.commitment_discount_percentage
    &&& f.commitment_discount_amount_gross == p.commitment_discount_amount_gross
    &&& f.loyalty_card == p.loyalty_card
    &&& f.burned_loyalty_points == p.burned_loyalty_points
    &&& purchase_items_of(p.items@, f.items@)
    &&& upl_info_forms_of(p.upl_info_objects@, f.upl_info_objects@)
    &&& f.need_invoice == p.need_invoice
    &&& f.invoice_id == p.invoice_id
    &&& f.total_net_price == p.total_net
    &&& f.total_vat == p.total_vat
    &&& f.total_gross_price == p.total_gross
    &&& Some(f.payment_kind) == spec_payment_kind(p.payment_kind as int)
    &&& f.payments@ == p.payments@
    &&& f.burned_points@ == p.burned_points@
    &&& f.payable == p.payable
    &&& f.payment_balance == p.payment_balance
    &&& f.date_completion == p.date_completion
    &&& f.payment_duedate == p.payment_duedate
    &&& f.profit_net == p.profit_net
    &&& f.restored == p.restored
    &&& f.owner_uid == p.owner_uid
    &&& f.created_by == p.created_by
    &&& f.created_at == p.created_at
}

impl PurchaseForm {
    /// Builds the reported purchase from the wire aggregate. Fails with an
    /// internal error exactly when the aggregate does not decode: an
    /// unknown payment-kind or item-kind code, or a unit line without a
    /// kind tag, marks a corrupted upstream record.
    pub fn from_purchase_obj(p: &PurchaseObj) -> (r: Result<PurchaseForm, ApiError>)
        ensures
            r is Ok <==> purchase_obj_well_formed(*p),
            r matches Ok(f) ==> purchase_form_of(*p, f),
            r matches Err(e) ==> e is InternalError,
    {
        let payment_kind = match payment_kind_from_code(p.payment_kind) {
            Ok(k) => k,
            Err(e) => {
                return Err(e);
            },
        };
        let items = match purchase_items(&p.items) {
            Ok(v) => v,
            Err(e) => {
                return Err(e);
            },
        };
        let upl_info_objects = match upl_info_forms(&p.upl_info_objects) {
            Ok(v) => v,
            Err(e) => {
                return Err(e);
            },
        };
        let customer = match &p.customer {
            Some(c) => Some(c.clone()),
            None => None,
        };
        let loyalty_card = match &p.loyalty_card {
            Some(lc) => Some(lc.clone()),
            None => None,
        };
        Ok(PurchaseForm {
            purchase_id: p.id.clone(),
            customer,
            commitment_id: p.commitment_id.clone(),
            commitment_discount_percentage: p.commitment_discount_percentage,
            commitment_discount_amount_gross: p.commitment_discount_amount_gross,
            loyalty_card,
            burned_loyalty_points: p.burned_loyalty_points,
            items,
            upl_info_objects,
            need_invoice: p.need_invoice,
            invoice_id: p.invoice_id.clone(),
            total_net_price: p.total_net,
            total_vat: p.total_vat,
            total_gross_price: p.total_gross,
            payment_kind,
            payments: clone_payments(&p.payments),
            burned_points: clone_loyalty_transactions(&p.burned_points),
            payable: p.payable,
            payment_balance: p.payment_balance,
            date_completion: p.date_completion.clone(),
            payment_duedate: p.payment_duedate.clone(),
            profit_net: p.profit_net,
            restored: p.restored,
            owner_uid: p.owner_uid,
            created_by: p.created_by,
            created_at: p.created_at.clone(),
        })
    }
}

// Request bodies of the purchase endpoints.

#[derive(Debug, Clone)]
pub struct PurchaseIdForm {
    pub purchase_id: String,
}

#[derive(Debug, Clone)]
pub struct PdfBase64Form {
    pub pdf_base64: String,
}

} // verus!
