//! The shopping cart: an in-progress, mutable transaction prior to
//! checkout. A cart carries catalog line items and attached inventory-unit
//! line items, split into a by-catalog-code group and a by-unique-unit
//! group.

use vstd::prelude::*;

use crate::error::ApiError;

verus! {

/// Customer snapshot attached to a cart.
#[derive(Debug)]
pub struct CustomerForm {
    pub id: u32,
    pub name: String,
    pub zip: String,
    pub location: String,
    pub street: String,
    pub tax_number: String,
}

impl Clone for CustomerForm {
    fn clone(&self) -> (res: Self)
        ensures
            res == *self,
    {
        CustomerForm {
            id: self.id,
            name: self.name.clone(),
            zip: self.zip.clone(),
            location: self.location.clone(),
            street: self.street.clone(),
            tax_number: self.tax_number.clone(),
        }
    }
}

/// Cart list entry as shown in a cart overview.
#[derive(Debug, Clone)]
pub struct CartInfoForm {
    pub id: String,
    pub customer_name: String,
    pub upl_count: u32,
    pub item_names: Vec<String>,
    pub owner: u32,
    pub created_by: u32,
    pub created_at: String,
}

/// Kind of an attached unit line: a whole catalog item with a piece count,
/// or a fraction of an opened divisible product.
#[derive(Debug, Clone, Copy, PartialEq, Eq, Structural)]
pub enum UplKindForm {
    Sku { sku: u32, piece: u32 },
    OpenedSku { product_id: u32, amount: u32 },
}

/// An attached inventory-unit line item of a cart.
#[derive(Debug)]
pub struct UplInfoForm {
    pub upl_id: String,
    pub kind: UplKindForm,
    pub name: String,
    pub retail_price_net: u32,
    pub vat: String,
    pub retail_price_gross: u32,
    pub procurement_net_price: u32,
    pub best_before: String,
    pub depreciated: bool,
}

impl Clone for UplInfoForm {
    fn clone(&self) -> (res: Self)
        ensures
            res == *self,
    {
        UplInfoForm {
            upl_id: self.upl_id.clone(),
            kind: self.kind,
            name: self.name.clone(),
            retail_price_net: self.retail_price_net,
            vat: self.vat.clone(),
            retail_price_gross: self.retail_price_gross,
            procurement_net_price: self.procurement_net_price,
            best_before: self.best_before.clone(),
            depreciated: self.depreciated,
        }
    }
}

/// An attached unit line as the purchase service hands it over; the kind
/// arrives as optional on the wire.
#[derive(Debug, Clone)]
pub struct UplInfoObj {
    pub upl_id: String,
    pub upl_kind: Option<UplKindForm>,
    pub name: String,
    pub retail_net_price: u32,
    pub vat: String,
    pub retail_gross_price: u32,
    pub procurement_net_price: u32,
    pub best_before: String,
    pub depreciated: bool,
}

/// Kind of a catalog line item.
#[derive(Debug, Clone, Copy, PartialEq, Eq, Structural)]
pub enum ItemKindForm {
    Sku,
    DerivedProduct,
    DepreciatedProduct,
}

/// A catalog line item of a cart.
#[derive(Debug)]
pub struct ItemForm {
    pub sku: u32,
    pub name: String,
    pub piece: u32,
    pub retail_price_net: u32,
    pub vat: String,
    pub retail_price_gross: u32,
    pub total_retail_price_net: u32,
    pub total_retail_price_gross: u32,
}

impl Clone for ItemForm {
    fn clone(&self) -> (res: Self)
        ensures
            res == *self,
    {
        ItemForm {
            sku: self.sku,
            name: self.name.clone(),
            piece: self.piece,
            retail_price_net: self.retail_price_net,
            vat: self.vat.clone(),
            retail_price_gross: self.retail_price_gross,
            total_retail_price_net: self.total_retail_price_net,
            total_retail_price_gross: self.total_retail_price_gross,
        }
    }
}

/// Payment method of a cart.
#[derive(Debug, Clone, Copy, PartialEq, Eq, Structural)]
pub enum PaymentKindForm {
    Cash,
    Card,
    Transfer,
}

/// A recorded payment.
#[derive(Debug)]
pub struct PaymentForm {
    pub id: String,
    pub amount: i32,
}

impl Clone for PaymentForm {
    fn clone(&self) -> (res: Self)
        ensures
            res == *self,
    {
        PaymentForm { id: self.id.clone(), amount: self.amount }
    }
}

/// A burned-loyalty-points transaction recorded on a cart.
#[derive(Debug)]
pub struct LoyaltyTransaction {
    pub loyalty_account_id: String,
    pub transaction_id: String,
    pub burned_points: i32,
}

impl Clone for LoyaltyTransaction {
    fn clone(&self) -> (res: Self)
        ensures
            res == *self,
    {
        LoyaltyTransaction {
            loyalty_account_id: self.loyalty_account_id.clone(),
            transaction_id: self.transaction_id.clone(),
            burned_points: self.burned_points,
        }
    }
}

/// The cart aggregate as the purchase service hands it over. The payment
/// kind arrives as a raw integer code on the wire.
#[derive(Debug, Clone)]
pub struct CartObj {
    pub ancestor: String,
    pub id: String,
    pub customer: Option<CustomerForm>,
    pub commitment_id: String,
    pub commitment_discount_percentage: u32,
    pub loyalty_card_id: String,
    pub loyalty_account_id: String,
    pub loyalty_level: String,
    pub shopping_list: Vec<ItemForm>,
    pub upls_sku: Vec<UplInfoObj>,
    pub upls_unique: Vec<UplInfoObj>,
    pub total_net: u32,
    pub total_vat: u32,
    pub total_gross: u32,
    pub commitment_discount_amount_gross: u32,
    pub burned_points: Vec<LoyaltyTransaction>,
    pub need_invoice: bool,
    pub payment_kind: i32,
    pub payments: Vec<PaymentForm>,
    pub payable: i32,
    pub payment_balance: i32,
    pub profit_net: i32,
    pub owner_uid: u32,
    pub store_id: u32,
    pub date_completion: String,
    pub payment_duedate: String,
    pub created_by: u32,
    pub created_at: String,
}

/// The cart as it is reported outward.
#[derive(Debug, Clone)]
pub struct CartForm {
    pub ancestor: String,
    pub id: String,
    pub customer: Option<CustomerForm>,
    pub commitment_id: String,
    pub commitment_discount_percentage: u32,
    pub loyalty_card_id: String,
    pub loyalty_account_id: String,
    pub loyalty_level: String,
    pub shopping_list: Vec<ItemForm>,
    pub upls_sku: Vec<UplInfoForm>,
    pub upls_unique: Vec<UplInfoForm>,
    pub total_net: u32,
    pub total_vat: u32,
    pub total_gross: u32,
    pub commitment_discount_amount_gross: u32,
    pub burned_points: Vec<LoyaltyTransaction>,
    pub need_invoice: bool,
    pub payment_kind: PaymentKindForm,
    pub payments: Vec<PaymentForm>,
    pub payable: i32,
    pub payment_balance: i32,
    pub profit_net: i32,
    pub owner_uid: u32,
    pub store_id: u32,
    pub date_completion: String,
    pub payment_duedate: String,
    pub created_by: u32,
    pub created_at: String,
}

/// The payment kind a raw wire code stands for.
pub open spec fn spec_payment_kind(k: int) -> Option<PaymentKindForm> {
    if k == 0 {
        Some(PaymentKindForm::Cash)
    } else if k == 1 {
        Some(PaymentKindForm::Card)
    } else if k == 2 {
        Some(PaymentKindForm::Transfer)
    } else {
        None
    }
}

/// Decodes a raw payment-kind code; an unknown code marks a corrupted
/// upstream record.
pub fn payment_kind_from_code(k: i32) -> (r: Result<PaymentKindForm, ApiError>)
    ensures
        match r {
            Ok(p) => spec_payment_kind(k as int) == Some(p),
            Err(e) => spec_payment_kind(k as int) is None && e is InternalError,
        },
{
    if k == 0 {
        Ok(PaymentKindForm::Cash)
    } else if k == 1 {
        Ok(PaymentKindForm::Card)
    } else if k == 2 {
        Ok(PaymentKindForm::Transfer)
    } else {
        Err(ApiError::internal_error("cart record has an unknown payment kind code"))
    }
}

/// How a reported unit line relates to the wire line it was built from.
pub open spec fn upl_info_form_of(o: UplInfoObj, f: UplInfoForm) -> bool {
    &&& o.upl_kind is Some
    &&& f.upl_id == o.upl_id
    &&& f.kind == o.upl_kind->0
    &&& f.name == o.name
    &&& f.retail_price_net == o.retail_net_price
    &&& f.vat == o.vat
    &&& f.retail_price_gross == o.retail_gross_price
    &&& f.procurement_net_price == o.procurement_net_price
    &&& f.best_before == o.best_before
    &&& f.depreciated == o.depreciated
}

impl UplInfoForm {
    /// Builds the reported form of a wire unit line. Fails with an internal
    /// error exactly when the line lacks its kind.
    pub fn from_info_obj(o: &UplInfoObj) -> (r: Result<UplInfoForm, ApiError>)
        ensures
            r is Ok <==> o.upl_kind is Some,
            r matches Ok(f) ==> upl_info_form_of(*o, f),
            r matches Err(e) ==> e is InternalError,
    {
        let kind = match o.upl_kind {
            Some(k) => k,
            None => {
                return Err(ApiError::internal_error("unit line has no kind tag"));
            },
        };
        Ok(UplInfoForm {
            upl_id: o.upl_id.clone(),
            kind,
            name: o.name.clone(),
            retail_price_net: o.retail_net_price,
            vat: o.vat.clone(),
            retail_price_gross: o.retail_gross_price,
            procurement_net_price: o.procurement_net_price,
            best_before: o.best_before.clone(),
            depreciated: o.depreciated,
        })
    }
}

/// All wire unit lines of a group carry their kind tag.
pub open spec fn upl_info_kinds_present(v: Seq<UplInfoObj>) -> bool {
    forall|i: int| 0 <= i < v.len() ==> (#[trigger] v[i].upl_kind) is Some
}

/// The reported forms of a whole group of wire unit lines.
pub open spec fn upl_info_forms_of(v: Seq<UplInfoObj>, fs: Seq<UplInfoForm>) -> bool {
    &&& fs.len() == v.len()
    &&& forall|i: int| 0 <= i < v.len() ==> upl_info_form_of(v[i], #[trigger] fs[i])
}

fn upl_info_forms(v: &Vec<UplInfoObj>) -> (r: Result<Vec<UplInfoForm>, ApiError>)
    ensures
        r is Ok <==> upl_info_kinds_present(v@),
        r matches Ok(fs) ==> upl_info_forms_of(v@, fs@),
        r matches Err(e) ==> e is InternalError,
{
    let mut fs: Vec<UplInfoForm> = Vec::new();
    let mut i: usize = 0;
    while i < v.len()
        invariant
            i <= v.len(),
            fs.len() == i,
            forall|j: int| 0 <= j < i ==> upl_info_form_of(v@[j], #[trigger] fs@[j]),
        decreases v.len() - i,
    {
        match UplInfoForm::from_info_obj(&v[i]) {
            Ok(f) => {
                fs.push(f);
            },
            Err(e) => {
                proof {
                    assert(!(v@[i as int].upl_kind is Some));
                }
                return Err(e);
            },
        }
        i = i + 1;
    }
    proof {
        assert forall|j: int| 0 <= j < v@.len() implies (#[trigger] v@[j].upl_kind) is Some by {
            assert(upl_info_form_of(v@[j], fs@[j]));
        }
    }
    Ok(fs)
}

fn clone_items(v: &Vec<ItemForm>) -> (r: Vec<ItemForm>)
    ensures
        r@ == v@,
{
    let mut r: Vec<ItemForm> = Vec::new();
    let mut i: usize = 0;
    while i < v.len()
        invariant
            i <= v.len(),
            r@ =~= v@.subrange(0, i as int),
        decreases v.len() - i,
    {
        r.push(v[i].clone());
        i = i + 1;
    }
    proof {
        assert(r@ =~= v@);
    }
    r
}

fn clone_payments(v: &Vec<PaymentForm>) -> (r: Vec<PaymentForm>)
    ensures
        r@ == v@,
{
    let mut r: Vec<PaymentForm> = Vec::new();
    let mut i: usize = 0;
    while i < v.len()
        invariant
            i <= v.len(),
            r@ =~= v@.subrange(0, i as int),
        decreases v.len() - i,
    {
        r.push(v[i].clone());
        i = i + 1;
    }
    proof {
        assert(r@ =~= v@);
    }
    r
}

fn clone_loyalty_transactions(v: &Vec<LoyaltyTransaction>) -> (r: Vec<LoyaltyTransaction>)
    ensures
        r@ == v@,
{
    let mut r: Vec<LoyaltyTransaction> = Vec::new();
    let mut i: usize = 0;
    while i < v.len()
        invariant
            i <= v.len(),
            r@ =~= v@.subrange(0, i as int),
        decreases v.len() - i,
    {
        r.push(v[i].clone());
        i = i + 1;
    }
    proof {
        assert(r@ =~= v@);
    }
    r
}

/// The cart aggregate decodes cleanly: known payment kind, every attached
/// unit line carries its kind.
pub open spec fn cart_obj_well_formed(c: CartObj) -> bool {
    &&& spec_payment_kind(c.payment_kind as int) is Some
    &&& upl_info_kinds_present(c.upls_sku@)
    &&& upl_info_kinds_present(c.upls_unique@)
}

/// How the reported cart relates to the wire aggregate it was built from.
pub open spec fn cart_form_of(c: CartObj, f: CartForm) -> bool {
    &&& f.ancestor == c.ancestor
    &&& f.id == c.id
    &&& f.customer == c.customer
    &&& f.commitment_id == c.commitment_id
    &&& f.commitment_discount_percentage == c.commitment_discount_percentage
    &&& f.loyalty_card_id == c.loyalty_card_id
    &&& f.loyalty_account_id == c.loyalty_account_id
    &&& f.loyalty_level == c.loyalty_level
    &&& f.shopping_list@ == c.shopping_list@
    &&& upl_info_forms_of(c.upls_sku@, f.upls_sku@)
    &&& upl_info_forms_of(c.upls_unique@, f.upls_unique@)
    &&& f.total_net == c.total_net
    &&& f.total_vat == c.total_vat
    &&& f.total_gross == c.total_gross
    &&& f.commitment_discount_amount_gross == c.commitment_discount_amount_gross
    &&& f.burned_points@ == c.burned_points@
    &&& f.need_invoice == c.need_invoice
    &&& Some(f.payment_kind) == spec_payment_kind(c.payment_kind as int)
    &&& f.payments@ == c.payments@
    &&& f.payable == c.payable
    &&& f.payment_balance == c.payment_balance
    &&& f.profit_net == c.profit_net
    &&& f.owner_uid == c.owner_uid
    &&& f.store_id == c.store_id
    &&& f.date_completion == c.date_completion
    &&& f.payment_duedate == c.payment_duedate
    &&& f.created_by == c.created_by
    &&& f.created_at == c.created_at
}

impl CartForm {
    /// Builds the reported cart from the wire aggregate. Fails with an
    /// internal error exactly when the aggregate does not decode: an
    /// unknown payment-kind code or a unit line without a kind tag marks
    /// a corrupted upstream record.
    pub fn from_cart_obj(c: &CartObj) -> (r: Result<CartForm, ApiError>)
        ensures
            r is Ok <==> cart_obj_well_formed(*c),
            r matches Ok(f) ==> cart_form_of(*c, f),
            r matches Err(e) ==> e is InternalError,
    {
        let payment_kind = match payment_kind_from_code(c.payment_kind) {
            Ok(p) => p,
            Err(e) => {
                return Err(e);
            },
        };
        let upls_sku = match upl_info_forms(&c.upls_sku) {
            Ok(v) => v,
            Err(e) => {
                return Err(e);
            },
        };
        let upls_unique = match upl_info_forms(&c.upls_unique) {
            Ok(v) => v,
            Err(e) => {
                return Err(e);
            },
        };
        let customer = match &c.customer {
            Some(cu) => Some(cu.clone()),
            None => None,
        };
        Ok(CartForm {
            ancestor: c.ancestor.clone(),
            id: c.id.clone(),
            customer,
            commitment_id: c.commitment_id.clone(),
            commitment_discount_percentage: c.commitment_discount_percentage,
            loyalty_card_id: c.loyalty_card_id.clone(),
            loyalty_account_id: c.loyalty_account_id.clone(),
            loyalty_level: c.loyalty_level.clone(),
            shopping_list: clone_items(&c.shopping_list),
            upls_sku,
            upls_unique,
            total_net: c.total_net,
            total_vat: c.total_vat,
            total_gross: c.total_gross,
            commitment_discount_amount_gross: c.commitment_discount_amount_gross,
            burned_points: clone_loyalty_transactions(&c.burned_points),
            need_invoice: c.need_invoice,
            payment_kind,
            payments: clone_payments(&c.payments),
            payable: c.payable,
            payment_balance: c.payment_balance,
            profit_net: c.profit_net,
            owner_uid: c.owner_uid,
            store_id: c.store_id,
            date_completion: c.date_completion.clone(),
            payment_duedate: c.payment_duedate.clone(),
            created_by: c.created_by,
            created_at: c.created_at.clone(),
        })
    }
}

// Request bodies of the cart endpoints.

#[derive(Debug, Clone)]
pub struct NewCartForm {
    pub store_id: u32,
    pub created_by: u32,
}

#[derive(Debug, Clone)]
pub struct CartSetSkuPieceForm {
    pub cart_id: String,
    pub sku: u32,
    pub piece: u32,
}

#[derive(Debug, Clone)]
pub struct CartSetOwnerForm {
    pub cart_id: String,
    pub owner_uid: u32,
}

#[derive(Debug, Clone)]
pub struct CartSetInvoiceForm {
    pub cart_id: String,
    pub need_invoice: bool,
}

#[derive(Debug, Clone)]
pub struct CartSetStoreForm {
    pub cart_id: String,
    pub store_id: u32,
}

#[derive(Debug, Clone)]
pub struct CartAddCustomerForm {
    pub cart_id: String,
    pub customer_id: u32,
}

#[derive(Debug, Clone)]
pub struct CartRemoveCustomerForm {
    pub cart_id: String,
}

#[derive(Debug, Clone)]
pub struct CartSetPaymentForm {
    pub cart_id: String,
    pub payment_kind: String,
}

#[derive(Debug, Clone)]
pub struct CartCloseForm {
    pub cart_id: String,
}

#[derive(Debug, Clone)]
pub struct CartAddSkuForm {
    pub cart_id: String,
    pub sku_id: u32,
    pub piece: u32,
}

#[derive(Debug, Clone)]
pub struct CartRemoveSkuForm {
    pub cart_id: String,
    pub sku_id: u32,
}

#[derive(Debug, Clone)]
pub struct CartAddUplForm {
    pub cart_id: String,
    pub upl_id: String,
}

#[derive(Debug, Clone)]
pub struct CartRemoveUplForm {
    pub cart_id: String,
    pub upl_id: String,
}

#[derive(Debug, Clone)]
pub struct CartAddPaymentForm {
    pub cart_id: String,
    pub kind: String,
    pub amount: i32,
}

} // verus!
