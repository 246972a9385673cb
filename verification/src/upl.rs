//! The inventory unit ("UPL"): a uniquely identified physical inventory
//! record. A unit is either a whole catalog item, a bulk pack, a fraction
//! opened from a divisible product, or a fraction derived from an already
//! opened unit. Its lock and its location must stay mutually consistent:
//! a cart-locked unit sits in that cart, and a unit is locked to at most
//! one owner at a time.

use vstd::prelude::*;

use crate::error::ApiError;
use crate::text::{dec_digits, u32_to_dec};

verus! {

/// Kind of a unit, with the kind-specific payload.
#[derive(Debug, Clone)]
pub enum UnitKind {
    /// A whole catalog item.
    Sku { sku: u32 },
    /// A pack of several pieces of one catalog item.
    BulkSku { sku: u32, upl_pieces: u32 },
    /// A fraction opened from a divisible product; `amount` is what is left.
    OpenedSku { amount: u32, successors: Vec<String> },
    /// A fraction derived from an opened unit.
    DerivedProduct { derived_from: String, amount: u32 },
}

/// Exclusive lock of a unit.
#[derive(Debug, Clone)]
pub enum UnitLock {
    NoLock,
    CartLock(String),
    DeliveryLock(u32),
    InventoryLock(u32),
}

/// Physical location of a unit.
#[derive(Debug, Clone)]
pub enum UnitLocation {
    Stock(u32),
    Delivery(u32),
    Cart(String),
    Discard(u32),
}

/// Depreciation marker of a unit.
#[derive(Debug, Clone)]
pub struct UnitDepreciation {
    pub depreciation_id: u32,
    pub depreciation_comment: String,
}

/// The unit record as the inventory-unit service hands it over. The three
/// tag fields arrive as optional on the wire; a record missing one of them
/// is corrupted upstream data.
#[derive(Debug, Clone)]
pub struct Unit {
    pub id: String,
    pub product_id: u32,
    pub sku_id: u32,
    pub upl_piece: u32,
    pub sku_divisible_amount: u32,
    pub kind: Option<UnitKind>,
    pub lock: Option<UnitLock>,
    pub location: Option<UnitLocation>,
    pub price_net: u32,
    pub vat: String,
    pub price_gross: u32,
    pub margin_net: i32,
    pub procurement_id: u32,
    pub procurement_net_price: u32,
    pub procurement_net_price_sku: u32,
    pub is_divisible: bool,
    pub has_special_price: bool,
    pub depreciation: Option<UnitDepreciation>,
    pub best_before: String,
    pub is_healthy: bool,
    pub is_archived: bool,
    pub product_unit: String,
    pub created_by: u32,
    pub created_at: String,
}

/// Kind tag of a unit, without payload.
#[derive(Debug, Clone, PartialEq, Eq, Structural)]
pub enum UplKind {
    Sku,
    BulkSku,
    OpenedSku,
    DerivedProduct,
}

/// Lock tag of a unit, without payload.
#[derive(Debug, Clone, PartialEq, Eq, Structural)]
pub enum Lock {
    CartLock,
    DeliveryLock,
    InventoryLock,
}

/// Location tag of a unit, without payload.
#[derive(Debug, Clone, PartialEq, Eq, Structural)]
pub enum Location {
    Stock,
    Delivery,
    Cart,
    Discard,
}

/// The unit as it is reported outward.
#[derive(Debug, Clone)]
pub struct UplForm {
    pub upl_id: String,
    pub product_id: u32,
    pub upl_kind: UplKind,
    pub sku: u32,
    pub pieces: u32,
    pub divisible_amount: u32,
    pub sku_divisible_amount: u32,
    pub derived_successors: Option<Vec<String>>,
    pub derived_from: Option<String>,
    pub is_healthy: bool,
    pub best_before: String,
    pub is_depreciated: bool,
    pub depreciation_id: Option<u32>,
    pub depreciation_comment: Option<String>,
    pub has_special_price: bool,
    pub procurement_id: u32,
    pub procurement_net_price: u32,
    pub procurement_net_price_sku: u32,
    pub is_divisible: bool,
    pub lock: Option<Lock>,
    pub lock_id: Option<String>,
    pub location: Location,
    pub location_id: String,
    pub product_unit: String,
    pub vat: String,
    pub price_net: u32,
    pub price_gross: u32,
    pub margin_net: i32,
    pub is_archived: bool,
    pub created_by: u32,
    pub created_at: String,
}

/// A unit record is well formed when all three wire-optional tags are set.
pub open spec fn unit_tags_present(u: Unit) -> bool {
    &&& u.kind is Some
    &&& u.lock is Some
    &&& u.location is Some
}

/// Lock tag of the reported form for a given unit lock.
pub open spec fn form_lock_tag(l: UnitLock) -> Option<Lock> {
    match l {
        UnitLock::NoLock => None,
        UnitLock::CartLock(_) => Some(Lock::CartLock),
        UnitLock::DeliveryLock(_) => Some(Lock::DeliveryLock),
        UnitLock::InventoryLock(_) => Some(Lock::InventoryLock),
    }
}

/// Lock id (as text) of the reported form for a given unit lock.
pub open spec fn form_lock_id_view(l: UnitLock) -> Option<Seq<char>> {
    match l {
        UnitLock::NoLock => None,
        UnitLock::CartLock(cart_id) => Some(cart_id@),
        UnitLock::DeliveryLock(d) => Some(dec_digits(d as nat)),
        UnitLock::InventoryLock(d) => Some(dec_digits(d as nat)),
    }
}

/// Location tag of the reported form for a given unit location.
pub open spec fn form_location_tag(l: UnitLocation) -> Location {
    match l {
        UnitLocation::Stock(_) => Location::Stock,
        UnitLocation::Delivery(_) => Location::Delivery,
        UnitLocation::Cart(_) => Location::Cart,
        UnitLocation::Discard(_) => Location::Discard,
    }
}

/// Location id (as text) of the reported form for a given unit location.
pub open spec fn form_location_id_view(l: UnitLocation) -> Seq<char> {
    match l {
        UnitLocation::Stock(d) => dec_digits(d as nat),
        UnitLocation::Delivery(d) => dec_digits(d as nat),
        UnitLocation::Cart(cart_id) => cart_id@,
        UnitLocation::Discard(d) => dec_digits(d as nat),
    }
}

/// How the reported form relates to the unit record it was built from.
pub open spec fn upl_form_of(u: Unit, f: UplForm) -> bool {
    &&& unit_tags_present(u)
    &&& f.upl_id == u.id
    &&& f.product_id == u.product_id
    &&& f.sku == u.sku_id
    &&& f.pieces == u.upl_piece
    &&& f.sku_divisible_amount == u.sku_divisible_amount
    &&& match u.kind->Some_0 {
        UnitKind::Sku { .. } => f.upl_kind == UplKind::Sku && f.divisible_amount == 1
            && f.derived_successors is None && f.derived_from is None,
        UnitKind::BulkSku { .. } => f.upl_kind == UplKind::BulkSku && f.divisible_amount == 1
            && f.derived_successors is None && f.derived_from is None,
        UnitKind::OpenedSku { amount, successors } => f.upl_kind == UplKind::OpenedSku
            && f.divisible_amount == amount
            && (f.derived_successors matches Some(s) && s@ == successors@)
            && f.derived_from is None,
        UnitKind::DerivedProduct { derived_from, amount } => f.upl_kind == UplKind::DerivedProduct
            && f.divisible_amount == amount && f.derived_successors is None
            && (f.derived_from matches Some(d) && d@ == derived_from@),
    }
    &&& f.is_healthy == u.is_healthy
    &&& f.best_before == u.best_before
    &&& f.is_depreciated == (u.depreciation is Some)
    &&& match u.depreciation {
        Some(dep) => f.depreciation_id == Some(dep.depreciation_id)
            && (f.depreciation_comment matches Some(c) && c@ == dep.depreciation_comment@),
        None => f.depreciation_id is None && f.depreciation_comment is None,
    }
    &&& f.has_special_price == u.has_special_price
    &&& f.procurement_id == u.procurement_id
    &&& f.procurement_net_price == u.procurement_net_price
    &&& f.procurement_net_price_sku == u.procurement_net_price_sku
    &&& f.is_divisible == u.is_divisible
    &&& f.lock == form_lock_tag(u.lock->Some_0)
    &&& match form_lock_id_view(u.lock->Some_0) {
        Some(v) => f.lock_id matches Some(s) && s@ == v,
        None => f.lock_id is None,
    }
    &&& f.location == form_location_tag(u.location->Some_0)
    &&& f.location_id@ == form_location_id_view(u.location->Some_0)
    &&& f.product_unit == u.product_unit
    &&& f.vat == u.vat
    &&& f.price_net == u.price_net
    &&& f.price_gross == u.price_gross
    &&& f.margin_net == u.margin_net
    &&& f.is_archived == u.is_archived
    &&& f.created_by == u.created_by
    &&& f.created_at == u.created_at
}

/// Clones a vector of strings element by element.
pub fn clone_string_vec(v: &Vec<String>) -> (r: Vec<String>)
    ensures
        r@ == v@,
{
    let mut r: Vec<String> = Vec::new();
    let mut i: usize = 0;
    while i < v.len()
        invariant
            i <= v.len(),
            r@ =~= v@.subrange(0, i as int),
        decreases v.len() - i,
    {
        r.push(v[i].clone());
        i = i + 1;
    }
    proof {
        assert(r@ =~= v@);
    }
    r
}

impl UplForm {
    /// Builds the outward form of a unit record. Fails with an internal
    /// error exactly when the record lacks its kind, lock or location tag:
    /// that marks a corrupted upstream record, not a caller mistake.
    pub fn from_unit(u: &Unit) -> (r: Result<UplForm, ApiError>)
        ensures
            r is Ok <==> unit_tags_present(*u),
            r matches Ok(f) ==> upl_form_of(*u, f),
            r matches Err(e) ==> e is InternalError,
    {
        let kind = match &u.kind {
            Some(k) => k,
            None => {
                return Err(ApiError::internal_error("unit record has no kind tag"));
            },
        };
        let lock = match &u.lock {
            Some(l) => l,
            None => {
                return Err(ApiError::internal_error("unit record has no lock tag"));
            },
        };
        let location = match &u.location {
            Some(l) => l,
            None => {
                return Err(ApiError::internal_error("unit record has no location tag"));
            },
        };
        let (upl_kind, divisible_amount) = match kind {
            UnitKind::Sku { .. } => (UplKind::Sku, 1),
            UnitKind::BulkSku { .. } => (UplKind::BulkSku, 1),
            UnitKind::OpenedSku { amount, .. } => (UplKind::OpenedSku, *amount),
            UnitKind::DerivedProduct { amount, .. } => (UplKind::DerivedProduct, *amount),
        };
        let derived_successors = match kind {
            UnitKind::OpenedSku { successors, .. } => Some(clone_string_vec(successors)),
            _ => None,
        };
        let derived_from = match kind {
            UnitKind::DerivedProduct { derived_from, .. } => Some(derived_from.clone()),
            _ => None,
        };
        let (lock_tag, lock_id) = match lock {
            UnitLock::NoLock => (None, None),
            UnitLock::CartLock(cart_id) => (Some(Lock::CartLock), Some(cart_id.clone())),
            UnitLock::DeliveryLock(d) => (Some(Lock::DeliveryLock), Some(u32_to_dec(*d))),
            UnitLock::InventoryLock(d) => (Some(Lock::InventoryLock), Some(u32_to_dec(*d))),
        };
        let (location_tag, location_id) = match location {
            UnitLocation::Stock(d) => (Location::Stock, u32_to_dec(*d)),
            UnitLocation::Delivery(d) => (Location::Delivery, u32_to_dec(*d)),
            UnitLocation::Cart(cart_id) => (Location::Cart, cart_id.clone()),
            UnitLocation::Discard(d) => (Location::Discard, u32_to_dec(*d)),
        };
        let (depreciation_id, depreciation_comment) = match &u.depreciation {
            Some(dep) => (Some(dep.depreciation_id), Some(dep.depreciation_comment.clone())),
            None => (None, None),
        };
        Ok(UplForm {
            upl_id: u.id.clone(),
            product_id: u.product_id,
            upl_kind,
            sku: u.sku_id,
            pieces: u.upl_piece,
            divisible_amount,
            sku_divisible_amount: u.sku_divisible_amount,
            derived_successors,
            derived_from,
            is_healthy: u.is_healthy,
            best_before: u.best_before.clone(),
            is_depreciated: depreciation_id.is_some(),
            depreciation_id,
            depreciation_comment,
            has_special_price: u.has_special_price,
            procurement_id: u.procurement_id,
            procurement_net_price: u.procurement_net_price,
            procurement_net_price_sku: u.procurement_net_price_sku,
            is_divisible: u.is_divisible,
            lock: lock_tag,
            lock_id,
            location: location_tag,
            location_id,
            product_unit: u.product_unit.clone(),
            vat: u.vat.clone(),
            price_net: u.price_net,
            price_gross: u.price_gross,
            margin_net: u.margin_net,
            is_archived: u.is_archived,
            created_by: u.created_by,
            created_at: u.created_at.clone(),
        })
    }
}

// Request bodies of the unit endpoints.

#[derive(Debug, Clone)]
pub struct UpdateBestBeforeForm {
    pub upl_id: String,
    pub best_before: String,
}

#[derive(Debug, Clone)]
pub struct SplitForm {
    pub upl_id: String,
    pub new_upl: String,
    pub piece: u32,
}

#[derive(Debug, Clone)]
pub struct DivideForm {
    pub upl_id: String,
    pub new_upl: String,
    pub requested_amount: u32,
}

#[derive(Debug, Clone)]
pub struct SetDepreciationForm {
    pub upl_id: String,
    pub depreciation_id: u32,
    pub depreciation_comment: String,
}

#[derive(Debug, Clone)]
pub struct RemoveDepreciationForm {
    pub upl_id: String,
}

#[derive(Debug, Clone)]
pub struct SetDepreciationPriceForm {
    pub upl_id: String,
    pub depreciation_net_price: u32,
}

#[derive(Debug, Clone)]
pub struct RemoveDepreciationPriceForm {
    pub upl_id: String,
}

#[derive(Debug, Clone)]
pub struct OpenForm {
    pub upl_id: String,
}

#[derive(Debug, Clone)]
pub struct CloseForm {
    pub upl_id: String,
}

#[derive(Debug, Clone)]
pub struct MergeBackForm {
    pub upl_id: String,
}

#[derive(Debug, Clone)]
pub struct GetBySkuAndStockForm {
    pub sku: u32,
    pub stock_id: u32,
}

#[derive(Debug, Clone)]
pub struct GetLocationInfoForm {
    pub sku: u32,
}

/// Per-store stock counts for one catalog code.
#[derive(Debug, Clone)]
pub struct StockInfoForm {
    pub total: u32,
    pub healthy: u32,
}

/// Stock counts of one catalog code over the stores that hold it.
#[derive(Debug, Clone)]
pub struct LocationInfoForm {
    pub sku: u32,
    pub stocks: Vec<(u32, StockInfoForm)>,
}

} // verus!
