//! The unit attachment coordinator: attaches or detaches a single
//! inventory unit to or from a shopping cart, deriving its priced
//! line-item representation and managing the unit's exclusive lock.
//!
//! The cross-service invariant — a unit is locked to at most one cart,
//! and a cart-locked unit sits in that cart — is maintained by call
//! ordering alone: attach to the cart first, then lock the unit, with a
//! compensating detach when the lock fails; release the lock first, then
//! detach, so that a crash mid-sequence never leaves a unit locked but
//! absent from every cart.
//!
//! Both workflows are explicit state machines: a step maps the current
//! state and the latest remote-call result to the next state and the
//! next remote action. The driver performing the actions holds no logic.

use vstd::prelude::*;

use crate::cart::{cart_form_of, cart_obj_well_formed, CartForm, CartObj, UplInfoForm, UplKindForm};
use crate::catalog::{PriceObject, SkuObj};
use crate::error::ApiError;
use crate::money::{proportional_price, round_ratio};
use crate::upl::{Unit, UnitKind, UnitLocation, UnitLock};

verus! {

/// Why an attach attempt was refused.
#[derive(Debug)]
pub enum AttachError {
    /// The unit is not on a store's stock: discarded, sold or in transit.
    NotSellable,
    /// The unit sits at another store than the cart.
    WrongStore,
    /// The unit is already locked to this very cart.
    AlreadyInCart,
    /// The catalog entry's divisible base amount is zero; the
    /// proportional price would divide by it.
    ZeroDivisibleBase,
    /// A proportional price exceeds the line item's field width.
    PriceOutOfRange,
    /// The unit record is corrupted: a tag is missing, or a derived
    /// fraction's parent is not an opened unit.
    CorruptUnit,
    /// The updated cart handed back by the purchase service does not
    /// decode.
    CorruptCart,
    /// A remote call failed; the failure is propagated unchanged.
    Remote(ApiError),
    /// The lock failed and the compensating detach failed too: the unit
    /// is attached but unlocked, an inconsistency to surface.
    CompensationFailed { lock_error: ApiError, detach_error: ApiError },
    /// The driver handed an event that the current state cannot accept.
    Unexpected,
}

impl AttachError {
    /// The outward error of a refused attach: domain refusals are bad
    /// requests, corrupted upstream data is an internal error, and a
    /// remote failure passes through unchanged.
    pub fn to_api_error(self) -> (r: ApiError)
        ensures
            match self {
                AttachError::NotSellable => r matches ApiError::BadRequest(m) && m@
                    == "unit is not sellable: it is discarded, sold or in transit"@,
                AttachError::WrongStore => r matches ApiError::BadRequest(m) && m@
                    == "unit is not at the cart's store"@,
                AttachError::AlreadyInCart => r matches ApiError::BadRequest(m) && m@
                    == "unit is already in this cart"@,
                AttachError::ZeroDivisibleBase => r matches ApiError::BadRequest(m) && m@
                    == "catalog entry has a zero divisible base amount"@,
                AttachError::PriceOutOfRange => r is InternalError,
                AttachError::CorruptUnit => r is InternalError,
                AttachError::CorruptCart => r is InternalError,
                AttachError::Remote(e) => r == e,
                AttachError::CompensationFailed { .. } => r is InternalError,
                AttachError::Unexpected => r is InternalError,
            },
    {
        match self {
            AttachError::NotSellable => ApiError::bad_request(
                "unit is not sellable: it is discarded, sold or in transit",
            ),
            AttachError::WrongStore => ApiError::bad_request(
                "unit is not at the cart's store",
            ),
            AttachError::AlreadyInCart => ApiError::bad_request("unit is already in this cart"),
            AttachError::ZeroDivisibleBase => ApiError::bad_request(
                "catalog entry has a zero divisible base amount",
            ),
            AttachError::PriceOutOfRange => ApiError::internal_error(
                "proportional price is out of range",
            ),
            AttachError::CorruptUnit => ApiError::internal_error("unit record is corrupted"),
            AttachError::CorruptCart => ApiError::internal_error(
                "updated cart record does not decode",
            ),
            AttachError::Remote(e) => e,
            AttachError::CompensationFailed { .. } => ApiError::internal_error(
                "unit lock failed and the compensating detach failed: unit attached but unlocked",
            ),
            AttachError::Unexpected => ApiError::internal_error(
                "attach workflow received an event it cannot accept",
            ),
        }
    }
}

/// Catalog entry and price of one catalog code, fetched together.
#[derive(Debug)]
pub struct PricingInfo {
    pub catalog: SkuObj,
    pub price: PriceObject,
}

/// The line item of a whole unit: one piece of the catalog code, or a
/// bulk pack's piece count, at the catalog price.
pub open spec fn whole_line(unit: Unit, catalog: SkuObj, price: PriceObject, sku: u32, piece: u32) -> UplInfoForm {
    UplInfoForm {
        upl_id: unit.id,
        kind: UplKindForm::Sku { sku, piece },
        name: catalog.display_name,
        retail_price_net: price.price_net_retail,
        vat: price.vat,
        retail_price_gross: price.price_gross_retail,
        procurement_net_price: unit.procurement_net_price,
        best_before: unit.best_before,
        depreciated: unit.depreciation is Some,
    }
}

/// The line item of a fraction of a divisible product: every price is
/// the catalog price times `amount / base`, rounded to the nearest
/// currency unit. A zero base is refused before any division.
pub open spec fn fraction_line(unit: Unit, catalog: SkuObj, price: PriceObject, amount: u32) -> Result<UplInfoForm, AttachError> {
    if catalog.divisible_amount == 0 {
        Err(AttachError::ZeroDivisibleBase)
    } else {
        let net = round_ratio(
            price.price_net_retail as int * amount as int,
            catalog.divisible_amount as int,
        );
        let gross = round_ratio(
            price.price_gross_retail as int * amount as int,
            catalog.divisible_amount as int,
        );
        let procurement = round_ratio(
            unit.procurement_net_price_sku as int * amount as int,
            catalog.divisible_amount as int,
        );
        if net > u32::MAX || gross > u32::MAX || procurement > u32::MAX {
            Err(AttachError::PriceOutOfRange)
        } else {
            Ok(
                UplInfoForm {
                    upl_id: unit.id,
                    kind: UplKindForm::OpenedSku { product_id: unit.product_id, amount },
                    name: catalog.display_name,
                    retail_price_net: net as u32,
                    vat: price.vat,
                    retail_price_gross: gross as u32,
                    procurement_net_price: procurement as u32,
                    best_before: unit.best_before,
                    depreciated: unit.depreciation is Some,
                },
            )
        }
    }
}

/// The parent of a derived fraction must itself be an opened unit;
/// anything else denotes a corrupted unit graph.
pub open spec fn parent_is_opened(parent: Option<Unit>) -> bool {
    parent matches Some(p) && p.kind matches Some(UnitKind::OpenedSku { .. })
}

/// The kind-specific line-item representation of a unit, given the
/// catalog entry and price of the catalog code that prices it (the
/// parent's code for a derived fraction).
pub open spec fn derive_line(
    unit: Unit,
    parent: Option<Unit>,
    catalog: SkuObj,
    price: PriceObject,
) -> Result<UplInfoForm, AttachError> {
    match unit.kind {
        None => Err(AttachError::CorruptUnit),
        Some(UnitKind::Sku { sku }) => Ok(whole_line(unit, catalog, price, sku, 1)),
        Some(UnitKind::BulkSku { sku, upl_pieces }) => Ok(
            whole_line(unit, catalog, price, sku, upl_pieces),
        ),
        Some(UnitKind::OpenedSku { amount, .. }) => fraction_line(unit, catalog, price, amount),
        Some(UnitKind::DerivedProduct { amount, .. }) => {
            if parent_is_opened(parent) {
                fraction_line(unit, catalog, price, amount)
            } else {
                Err(AttachError::CorruptUnit)
            }
        },
    }
}

/// Derives the line item of a unit.
pub fn derive_unit_line(
    unit: &Unit,
    parent: &Option<Unit>,
    catalog: &SkuObj,
    price: &PriceObject,
) -> (r: Result<UplInfoForm, AttachError>)
    ensures
        r == derive_line(*unit, *parent, *catalog, *price),
{
    let amount: u32 = match &unit.kind {
        None => {
            return Err(AttachError::CorruptUnit);
        },
        Some(UnitKind::Sku { sku }) => {
            return Ok(
                UplInfoForm {
                    upl_id: unit.id.clone(),
                    kind: UplKindForm::Sku { sku: *sku, piece: 1 },
                    name: catalog.display_name.clone(),
                    retail_price_net: price.price_net_retail,
                    vat: price.vat.clone(),
                    retail_price_gross: price.price_gross_retail,
                    procurement_net_price: unit.procurement_net_price,
                    best_before: unit.best_before.clone(),
                    depreciated: unit.depreciation.is_some(),
                },
            );
        },
        Some(UnitKind::BulkSku { sku, upl_pieces }) => {
            return Ok(
                UplInfoForm {
                    upl_id: unit.id.clone(),
                    kind: UplKindForm::Sku { sku: *sku, piece: *upl_pieces },
                    name: catalog.display_name.clone(),
                    retail_price_net: price.price_net_retail,
                    vat: price.vat.clone(),
                    retail_price_gross: price.price_gross_retail,
                    procurement_net_price: unit.procurement_net_price,
                    best_before: unit.best_before.clone(),
                    depreciated: unit.depreciation.is_some(),
                },
            );
        },
        Some(UnitKind::OpenedSku { amount, .. }) => *amount,
        Some(UnitKind::DerivedProduct { amount, .. }) => {
            let parent_ok = match parent {
                Some(p) => matches!(&p.kind, Some(UnitKind::OpenedSku { .. })),
                None => false,
            };
            if !parent_ok {
                return Err(AttachError::CorruptUnit);
            }
            *amount
        },
    };
    if catalog.divisible_amount == 0 {
        return Err(AttachError::ZeroDivisibleBase);
    }
    let net = match proportional_price(price.price_net_retail, amount, catalog.divisible_amount) {
        Some(v) => v,
        None => {
            return Err(AttachError::PriceOutOfRange);
        },
    };
    let gross = match proportional_price(
        price.price_gross_retail,
        amount,
        catalog.divisible_amount,
    ) {
        Some(v) => v,
        None => {
            return Err(AttachError::PriceOutOfRange);
        },
    };
    let procurement = match proportional_price(
        unit.procurement_net_price_sku,
        amount,
        catalog.divisible_amount,
    ) {
        Some(v) => v,
        None => {
            return Err(AttachError::PriceOutOfRange);
        },
    };
    Ok(
        UplInfoForm {
            upl_id: unit.id.clone(),
            kind: UplKindForm::OpenedSku { product_id: unit.product_id, amount },
            name: catalog.display_name.clone(),
            retail_price_net: net,
            vat: price.vat.clone(),
            retail_price_gross: gross,
            procurement_net_price: procurement,
            best_before: unit.best_before.clone(),
            depreciated: unit.depreciation.is_some(),
        },
    )
}

/// The refusal attaching this unit to this cart provokes, if any: the
/// unit must sit on the cart's store's stock, must not already be locked
/// to this cart, and must carry its kind tag.
pub open spec fn attach_guard(u: Unit, c: CartObj) -> Option<AttachError> {
    match u.location {
        None => Some(AttachError::CorruptUnit),
        Some(UnitLocation::Stock(stock_id)) => if stock_id != c.store_id {
            Some(AttachError::WrongStore)
        } else {
            match u.lock {
                None => Some(AttachError::CorruptUnit),
                Some(UnitLock::CartLock(cart_id)) => if cart_id@ == c.id@ {
                    Some(AttachError::AlreadyInCart)
                } else if u.kind is None {
                    Some(AttachError::CorruptUnit)
                } else {
                    None
                },
                Some(_) => if u.kind is None {
                    Some(AttachError::CorruptUnit)
                } else {
                    None
                },
            }
        },
        Some(_) => Some(AttachError::NotSellable),
    }
}

/// The catalog code that prices a unit (for a derived fraction: the
/// parent's code, resolved separately).
pub open spec fn pricing_sku(u: Unit) -> u32 {
    match u.kind {
        Some(UnitKind::Sku { sku }) => sku,
        Some(UnitKind::BulkSku { sku, .. }) => sku,
        _ => u.sku_id,
    }
}

/// State of the attach workflow: what was already gathered and which
/// remote answer is awaited.
pub enum AttachState {
    Start { cart_id: String, upl_id: String, actor: u32 },
    AwaitUnit { cart_id: String, actor: u32 },
    AwaitCart { unit: Unit, actor: u32 },
    AwaitParent { unit: Unit, cart: CartObj, actor: u32 },
    AwaitPricing { unit: Unit, parent: Option<Unit>, cart: CartObj, actor: u32 },
    AwaitAttach { unit_id: String, cart_id: String, actor: u32 },
    AwaitLock { cart: CartForm, unit_id: String, cart_id: String },
    AwaitCompensation { lock_error: ApiError },
    Done,
    Failed,
}

/// A remote answer handed to the attach workflow.
pub enum AttachEvent {
    Start,
    Unit(Result<Unit, ApiError>),
    Cart(Result<CartObj, ApiError>),
    Parent(Result<Unit, ApiError>),
    Pricing(Result<PricingInfo, ApiError>),
    Attached(Result<CartObj, ApiError>),
    Locked(Result<bool, ApiError>),
    Detached(Result<CartObj, ApiError>),
}

/// The next remote call (or the final outcome) the attach workflow asks
/// its driver to perform.
pub enum AttachAction {
    FetchUnit { upl_id: String },
    FetchCart { cart_id: String },
    FetchParent { upl_id: String },
    FetchPricing { sku: u32 },
    AttachToCart { cart_id: String, line: UplInfoForm },
    LockToCart { upl_id: String, cart_id: String, actor: u32 },
    /// The compensating detach: undoes the attach when the lock fails.
    DetachFromCart { cart_id: String, upl_id: String },
    Succeed { cart: CartForm },
    Fail { error: AttachError },
}

/// The transition relation of the attach workflow; `attach_step` is
/// proved to satisfy it.
pub open spec fn attach_trans(
    s: AttachState,
    e: AttachEvent,
    s2: AttachState,
    a: AttachAction,
) -> bool {
    match (s, e) {
        (AttachState::Start { cart_id, upl_id, actor }, AttachEvent::Start) => {
            &&& s2 == (AttachState::AwaitUnit { cart_id, actor })
            &&& a == (AttachAction::FetchUnit { upl_id })
        },
        (AttachState::AwaitUnit { cart_id, actor }, AttachEvent::Unit(res)) => match res {
            Ok(u) => {
                &&& s2 == (AttachState::AwaitCart { unit: u, actor })
                &&& a == (AttachAction::FetchCart { cart_id })
            },
            Err(err) => {
                &&& s2 is Failed
                &&& a == (AttachAction::Fail { error: AttachError::Remote(err) })
            },
        },
        (AttachState::AwaitCart { unit, actor }, AttachEvent::Cart(res)) => match res {
            Ok(c) => match attach_guard(unit, c) {
                Some(err) => {
                    &&& s2 is Failed
                    &&& a == (AttachAction::Fail { error: err })
                },
                None => match unit.kind->Some_0 {
                    UnitKind::DerivedProduct { derived_from, .. } => {
                        &&& s2 == (AttachState::AwaitParent { unit, cart: c, actor })
                        &&& a matches AttachAction::FetchParent { upl_id } && upl_id@
                            == derived_from@
                    },
                    _ => {
                        &&& s2 == (AttachState::AwaitPricing {
                            unit,
                            parent: None,
                            cart: c,
                            actor,
                        })
                        &&& a == (AttachAction::FetchPricing { sku: pricing_sku(unit) })
                    },
                },
            },
            Err(err) => {
                &&& s2 is Failed
                &&& a == (AttachAction::Fail { error: AttachError::Remote(err) })
            },
        },
        (AttachState::AwaitParent { unit, cart, actor }, AttachEvent::Parent(res)) => match res {
            Ok(p) => {
                if p.kind matches Some(UnitKind::OpenedSku { .. }) {
                    &&& s2 matches AttachState::AwaitPricing {
                        unit: u2,
                        parent: Some(p2),
                        cart: c2,
                        actor: a2,
                    } && u2 == unit && p2 == p && c2 == cart && a2 == actor
                    &&& a == (AttachAction::FetchPricing { sku: p.sku_id })
                } else {
                    &&& s2 is Failed
                    &&& a == (AttachAction::Fail { error: AttachError::CorruptUnit })
                }
            },
            Err(err) => {
                &&& s2 is Failed
                &&& a == (AttachAction::Fail { error: AttachError::Remote(err) })
            },
        },
        (AttachState::AwaitPricing { unit, parent, cart, actor }, AttachEvent::Pricing(res)) => match res {
            Ok(pr) => match derive_line(unit, parent, pr.catalog, pr.price) {
                Ok(line) => {
                    &&& s2 matches AttachState::AwaitAttach {
                        unit_id,
                        cart_id,
                        actor: a2,
                    } && unit_id@ == unit.id@ && cart_id@ == cart.id@ && a2 == actor
                    &&& a matches AttachAction::AttachToCart { cart_id: c2, line: l2 } && c2@
                        == cart.id@ && l2 == line
                },
                Err(err) => {
                    &&& s2 is Failed
                    &&& a == (AttachAction::Fail { error: err })
                },
            },
            Err(err) => {
                &&& s2 is Failed
                &&& a == (AttachAction::Fail { error: AttachError::Remote(err) })
            },
        },
        (AttachState::AwaitAttach { unit_id, cart_id, actor }, AttachEvent::Attached(res)) => match res {
            Ok(c) => {
                if cart_obj_well_formed(c) {
                    &&& s2 matches AttachState::AwaitLock {
                        cart,
                        unit_id: u2,
                        cart_id: c2,
                    } && cart_form_of(c, cart) && u2@ == unit_id@ && c2@ == cart_id@
                    &&& a matches AttachAction::LockToCart {
                        upl_id,
                        cart_id: c3,
                        actor: a2,
                    } && upl_id@ == unit_id@ && c3@ == cart_id@ && a2 == actor
                } else {
                    &&& s2 is Failed
                    &&& a == (AttachAction::Fail { error: AttachError::CorruptCart })
                }
            },
            Err(err) => {
                &&& s2 is Failed
                &&& a == (AttachAction::Fail { error: AttachError::Remote(err) })
            },
        },
        (AttachState::AwaitLock { cart, unit_id, cart_id }, AttachEvent::Locked(res)) => match res {
            Ok(_) => {
                &&& s2 is Done
                &&& a == (AttachAction::Succeed { cart })
            },
            Err(err) => {
                &&& s2 == (AttachState::AwaitCompensation { lock_error: err })
                &&& a matches AttachAction::DetachFromCart { cart_id: c2, upl_id } && c2@
                    == cart_id@ && upl_id@ == unit_id@
            },
        },
        (AttachState::AwaitCompensation { lock_error }, AttachEvent::Detached(res)) => match res {
            Ok(_) => {
                // The compensation undid the attach: the lock failure is
                // what the caller learns.
                &&& s2 is Failed
                &&& a == (AttachAction::Fail { error: AttachError::Remote(lock_error) })
            },
            Err(detach_error) => {
                &&& s2 is Failed
                &&& a == (AttachAction::Fail {
                    error: AttachError::CompensationFailed { lock_error, detach_error },
                })
            },
        },
        _ => {
            &&& s2 is Failed
            &&& a == (AttachAction::Fail { error: AttachError::Unexpected })
        },
    }
}

/// One step of the attach workflow.
pub fn attach_step(s: AttachState, e: AttachEvent) -> (r: (AttachState, AttachAction))
    ensures
        attach_trans(s, e, r.0, r.1),
{
    match (s, e) {
        (AttachState::Start { cart_id, upl_id, actor }, AttachEvent::Start) => (
            AttachState::AwaitUnit { cart_id, actor },
            AttachAction::FetchUnit { upl_id },
        ),
        (AttachState::AwaitUnit { cart_id, actor }, AttachEvent::Unit(res)) => match res {
            Ok(u) => (
                AttachState::AwaitCart { unit: u, actor },
                AttachAction::FetchCart { cart_id },
            ),
            Err(err) => (
                AttachState::Failed,
                AttachAction::Fail { error: AttachError::Remote(err) },
            ),
        },
        (AttachState::AwaitCart { unit, actor }, AttachEvent::Cart(res)) => match res {
            Ok(c) => {
                // Location: the unit must be on this cart's store's stock.
                match &unit.location {
                    None => {
                        return (
                            AttachState::Failed,
                            AttachAction::Fail { error: AttachError::CorruptUnit },
                        );
                    },
                    Some(UnitLocation::Stock(stock_id)) => {
                        if *stock_id != c.store_id {
                            return (
                                AttachState::Failed,
                                AttachAction::Fail { error: AttachError::WrongStore },
                            );
                        }
                    },
                    Some(_) => {
                        return (
                            AttachState::Failed,
                            AttachAction::Fail { error: AttachError::NotSellable },
                        );
                    },
                }
                // Lock: the unit must not already be in this very cart.
                match &unit.lock {
                    None => {
                        return (
                            AttachState::Failed,
                            AttachAction::Fail { error: AttachError::CorruptUnit },
                        );
                    },
                    Some(UnitLock::CartLock(cart_id)) => {
                        if *cart_id == c.id {
                            return (
                                AttachState::Failed,
                                AttachAction::Fail { error: AttachError::AlreadyInCart },
                            );
                        }
                    },
                    Some(_) => {},
                }
                match &unit.kind {
                    None => (
                        AttachState::Failed,
                        AttachAction::Fail { error: AttachError::CorruptUnit },
                    ),
                    Some(UnitKind::DerivedProduct { derived_from, .. }) => {
                        let parent_id = derived_from.clone();
                        (
                            AttachState::AwaitParent { unit, cart: c, actor },
                            AttachAction::FetchParent { upl_id: parent_id },
                        )
                    },
                    Some(UnitKind::Sku { sku }) => {
                        let sku = *sku;
                        (
                            AttachState::AwaitPricing { unit, parent: None, cart: c, actor },
                            AttachAction::FetchPricing { sku },
                        )
                    },
                    Some(UnitKind::BulkSku { sku, .. }) => {
                        let sku = *sku;
                        (
                            AttachState::AwaitPricing { unit, parent: None, cart: c, actor },
                            AttachAction::FetchPricing { sku },
                        )
                    },
                    Some(UnitKind::OpenedSku { .. }) => {
                        let sku = unit.sku_id;
                        (
                            AttachState::AwaitPricing { unit, parent: None, cart: c, actor },
                            AttachAction::FetchPricing { sku },
                        )
                    },
                }
            },
            Err(err) => (
                AttachState::Failed,
                AttachAction::Fail { error: AttachError::Remote(err) },
            ),
        },
        (AttachState::AwaitParent { unit, cart, actor }, AttachEvent::Parent(res)) => match res {
            Ok(p) => {
                if matches!(&p.kind, Some(UnitKind::OpenedSku { .. })) {
                    let sku = p.sku_id;
                    (
                        AttachState::AwaitPricing { unit, parent: Some(p), cart, actor },
                        AttachAction::FetchPricing { sku },
                    )
                } else {
                    (
                        AttachState::Failed,
                        AttachAction::Fail { error: AttachError::CorruptUnit },
                    )
                }
            },
            Err(err) => (
                AttachState::Failed,
                AttachAction::Fail { error: AttachError::Remote(err) },
            ),
        },
        (AttachState::AwaitPricing { unit, parent, cart, actor }, AttachEvent::Pricing(res)) => match res {
            Ok(pr) => match derive_unit_line(&unit, &parent, &pr.catalog, &pr.price) {
                Ok(line) => {
                    let unit_id = unit.id.clone();
                    let cart_id = cart.id.clone();
                    let attach_cart_id = cart.id.clone();
                    (
                        AttachState::AwaitAttach { unit_id, cart_id, actor },
                        AttachAction::AttachToCart { cart_id: attach_cart_id, line },
                    )
                },
                Err(error) => (AttachState::Failed, AttachAction::Fail { error }),
            },
            Err(err) => (
                AttachState::Failed,
                AttachAction::Fail { error: AttachError::Remote(err) },
            ),
        },
        (AttachState::AwaitAttach { unit_id, cart_id, actor }, AttachEvent::Attached(res)) => match res {
            Ok(c) => match CartForm::from_cart_obj(&c) {
                Ok(cart) => {
                    let lock_upl_id = unit_id.clone();
                    let lock_cart_id = cart_id.clone();
                    (
                        AttachState::AwaitLock { cart, unit_id, cart_id },
                        AttachAction::LockToCart {
                            upl_id: lock_upl_id,
                            cart_id: lock_cart_id,
                            actor,
                        },
                    )
                },
                Err(_) => (
                    AttachState::Failed,
                    AttachAction::Fail { error: AttachError::CorruptCart },
                ),
            },
            Err(err) => (
                AttachState::Failed,
                AttachAction::Fail { error: AttachError::Remote(err) },
            ),
        },
        (AttachState::AwaitLock { cart, unit_id, cart_id }, AttachEvent::Locked(res)) => match res {
            Ok(_) => (AttachState::Done, AttachAction::Succeed { cart }),
            Err(err) => (
                AttachState::AwaitCompensation { lock_error: err },
                AttachAction::DetachFromCart { cart_id, upl_id: unit_id },
            ),
        },
        (AttachState::AwaitCompensation { lock_error }, AttachEvent::Detached(res)) => match res {
            Ok(_) => (
                AttachState::Failed,
                AttachAction::Fail { error: AttachError::Remote(lock_error) },
            ),
            Err(detach_error) => (
                AttachState::Failed,
                AttachAction::Fail {
                    error: AttachError::CompensationFailed { lock_error, detach_error },
                },
            ),
        },
        (_, _) => (AttachState::Failed, AttachAction::Fail { error: AttachError::Unexpected }),
    }
}

/// Why a detach attempt was refused.
#[derive(Debug)]
pub enum DetachError {
    /// The unit is not locked to any cart.
    NotInCart,
    /// The unit is locked to another cart.
    LockedElsewhere,
    /// The unit record is corrupted: its lock tag is missing.
    CorruptUnit,
    /// The updated cart handed back by the purchase service does not
    /// decode.
    CorruptCart,
    /// A remote call failed; the failure is propagated unchanged.
    Remote(ApiError),
    /// The driver handed an event that the current state cannot accept.
    Unexpected,
}

impl DetachError {
    /// The outward error of a refused detach.
    pub fn to_api_error(self) -> (r: ApiError)
        ensures
            match self {
                DetachError::NotInCart => r matches ApiError::BadRequest(m) && m@
                    == "unit is not in this cart"@,
                DetachError::LockedElsewhere => r matches ApiError::BadRequest(m) && m@
                    == "unit is locked to another cart"@,
                DetachError::CorruptUnit => r is InternalError,
                DetachError::CorruptCart => r is InternalError,
                DetachError::Remote(e) => r == e,
                DetachError::Unexpected => r is InternalError,
            },
    {
        match self {
            DetachError::NotInCart => ApiError::bad_request("unit is not in this cart"),
            DetachError::LockedElsewhere => ApiError::bad_request(
                "unit is locked to another cart",
            ),
            DetachError::CorruptUnit => ApiError::internal_error("unit record is corrupted"),
            DetachError::CorruptCart => ApiError::internal_error(
                "updated cart record does not decode",
            ),
            DetachError::Remote(e) => e,
            DetachError::Unexpected => ApiError::internal_error(
                "detach workflow received an event it cannot accept",
            ),
        }
    }
}

/// The refusal detaching this unit from this cart provokes, if any: the
/// unit must be locked to this very cart.
pub open spec fn detach_guard(u: Unit, cart_id: Seq<char>) -> Option<DetachError> {
    match u.lock {
        None => Some(DetachError::CorruptUnit),
        Some(UnitLock::CartLock(lock_cart)) => if lock_cart@ == cart_id {
            None
        } else {
            Some(DetachError::LockedElsewhere)
        },
        Some(_) => Some(DetachError::NotInCart),
    }
}

/// State of the detach workflow.
pub enum DetachState {
    Start { cart_id: String, upl_id: String, actor: u32 },
    AwaitUnit { cart_id: String, actor: u32 },
    AwaitRelease { cart_id: String, unit_id: String },
    AwaitDetach,
    Done,
    Failed,
}

/// A remote answer handed to the detach workflow.
pub enum DetachEvent {
    Start,
    Unit(Result<Unit, ApiError>),
    Released(Result<bool, ApiError>),
    Detached(Result<CartObj, ApiError>),
}

/// The next remote call (or the final outcome) the detach workflow asks
/// its driver to perform. The lock is released before the unit leaves
/// the cart's line items, never the other way round.
pub enum DetachAction {
    FetchUnit { upl_id: String },
    ReleaseLock { upl_id: String, cart_id: String, actor: u32 },
    DetachFromCart { cart_id: String, upl_id: String },
    Succeed { cart: CartForm },
    Fail { error: DetachError },
}

/// The transition relation of the detach workflow; `detach_step` is
/// proved to satisfy it.
pub open spec fn detach_trans(
    s: DetachState,
    e: DetachEvent,
    s2: DetachState,
    a: DetachAction,
) -> bool {
    match (s, e) {
        (DetachState::Start { cart_id, upl_id, actor }, DetachEvent::Start) => {
            &&& s2 == (DetachState::AwaitUnit { cart_id, actor })
            &&& a == (DetachAction::FetchUnit { upl_id })
        },
        (DetachState::AwaitUnit { cart_id, actor }, DetachEvent::Unit(res)) => match res {
            Ok(u) => match detach_guard(u, cart_id@) {
                Some(err) => {
                    &&& s2 is Failed
                    &&& a == (DetachAction::Fail { error: err })
                },
                None => {
                    &&& s2 matches DetachState::AwaitRelease { cart_id: c2, unit_id } && c2@
                        == cart_id@ && unit_id@ == u.id@
                    &&& a matches DetachAction::ReleaseLock {
                        upl_id,
                        cart_id: c3,
                        actor: a2,
                    } && upl_id@ == u.id@ && c3@ == cart_id@ && a2 == actor
                },
            },
            Err(err) => {
                &&& s2 is Failed
                &&& a == (DetachAction::Fail { error: DetachError::Remote(err) })
            },
        },
        (DetachState::AwaitRelease { cart_id, unit_id }, DetachEvent::Released(res)) => match res {
            Ok(_) => {
                &&& s2 is AwaitDetach
                &&& a matches DetachAction::DetachFromCart { cart_id: c2, upl_id } && c2@
                    == cart_id@ && upl_id@ == unit_id@
            },
            Err(err) => {
                &&& s2 is Failed
                &&& a == (DetachAction::Fail { error: DetachError::Remote(err) })
            },
        },
        (DetachState::AwaitDetach, DetachEvent::Detached(res)) => match res {
            Ok(c) => {
                if cart_obj_well_formed(c) {
                    &&& s2 is Done
                    &&& a matches DetachAction::Succeed { cart } && cart_form_of(c, cart)
                } else {
                    &&& s2 is Failed
                    &&& a == (DetachAction::Fail { error: DetachError::CorruptCart })
                }
            },
            Err(err) => {
                &&& s2 is Failed
                &&& a == (DetachAction::Fail { error: DetachError::Remote(err) })
            },
        },
        _ => {
            &&& s2 is Failed
            &&& a == (DetachAction::Fail { error: DetachError::Unexpected })
        },
    }
}

/// One step of the detach workflow.
pub fn detach_step(s: DetachState, e: DetachEvent) -> (r: (DetachState, DetachAction))
    ensures
        detach_trans(s, e, r.0, r.1),
{
    match (s, e) {
        (DetachState::Start { cart_id, upl_id, actor }, DetachEvent::Start) => (
            DetachState::AwaitUnit { cart_id, actor },
            DetachAction::FetchUnit { upl_id },
        ),
        (DetachState::AwaitUnit { cart_id, actor }, DetachEvent::Unit(res)) => match res {
            Ok(u) => {
                match &u.lock {
                    None => {
                        return (
                            DetachState::Failed,
                            DetachAction::Fail { error: DetachError::CorruptUnit },
                        );
                    },
                    Some(UnitLock::CartLock(lock_cart)) => {
                        if !(*lock_cart == cart_id) {
                            return (
                                DetachState::Failed,
                                DetachAction::Fail { error: DetachError::LockedElsewhere },
                            );
                        }
                    },
                    Some(_) => {
                        return (
                            DetachState::Failed,
                            DetachAction::Fail { error: DetachError::NotInCart },
                        );
                    },
                }
                let unit_id = u.id.clone();
                let release_upl_id = u.id.clone();
                let release_cart_id = cart_id.clone();
                (
                    DetachState::AwaitRelease { cart_id, unit_id },
                    DetachAction::ReleaseLock {
                        upl_id: release_upl_id,
                        cart_id: release_cart_id,
                        actor,
                    },
                )
            },
            Err(err) => (
                DetachState::Failed,
                DetachAction::Fail { error: DetachError::Remote(err) },
            ),
        },
        (DetachState::AwaitRelease { cart_id, unit_id }, DetachEvent::Released(res)) => match res {
            Ok(_) => (
                DetachState::AwaitDetach,
                DetachAction::DetachFromCart { cart_id, upl_id: unit_id },
            ),
            Err(err) => (
                DetachState::Failed,
                DetachAction::Fail { error: DetachError::Remote(err) },
            ),
        },
        (DetachState::AwaitDetach, DetachEvent::Detached(res)) => match res {
            Ok(c) => match CartForm::from_cart_obj(&c) {
                Ok(cart) => (DetachState::Done, DetachAction::Succeed { cart }),
                Err(_) => (
                    DetachState::Failed,
                    DetachAction::Fail { error: DetachError::CorruptCart },
                ),
            },
            Err(err) => (
                DetachState::Failed,
                DetachAction::Fail { error: DetachError::Remote(err) },
            ),
        },
        (_, _) => (DetachState::Failed, DetachAction::Fail { error: DetachError::Unexpected }),
    }
}

} // verus!
