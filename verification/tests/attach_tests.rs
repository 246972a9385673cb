use retail_core::attachment::{
    attach_step, detach_step, AttachAction, AttachError, AttachEvent, AttachState, DetachAction,
    DetachError, DetachEvent, DetachState, PricingInfo,
};
use retail_core::cart::{CartObj, PaymentKindForm, UplInfoForm, UplKindForm};
use retail_core::catalog::{PriceObject, SkuObj};
use retail_core::error::ApiError;
use retail_core::upl::{Unit, UnitKind, UnitLocation, UnitLock};

fn sample_unit() -> Unit {
    Unit {
        id: "U-1".to_string(),
        product_id: 10,
        sku_id: 7,
        upl_piece: 1,
        sku_divisible_amount: 1000,
        kind: Some(UnitKind::Sku { sku: 7 }),
        lock: Some(UnitLock::NoLock),
        location: Some(UnitLocation::Stock(1)),
        price_net: 1000,
        vat: "27".to_string(),
        price_gross: 1270,
        margin_net: 0,
        procurement_id: 1,
        procurement_net_price: 800,
        procurement_net_price_sku: 800,
        is_divisible: false,
        has_special_price: false,
        depreciation: None,
        best_before: String::new(),
        is_healthy: true,
        is_archived: false,
        product_unit: "pc".to_string(),
        created_by: 1,
        created_at: String::new(),
    }
}

fn sample_cart(id: &str, store_id: u32) -> CartObj {
    CartObj {
        ancestor: String::new(),
        id: id.to_string(),
        customer: None,
        commitment_id: String::new(),
        commitment_discount_percentage: 0,
        loyalty_card_id: String::new(),
        loyalty_account_id: String::new(),
        loyalty_level: String::new(),
        shopping_list: Vec::new(),
        upls_sku: Vec::new(),
        upls_unique: Vec::new(),
        total_net: 0,
        total_vat: 0,
        total_gross: 0,
        commitment_discount_amount_gross: 0,
        burned_points: Vec::new(),
        need_invoice: false,
        payment_kind: 0,
        payments: Vec::new(),
        payable: 0,
        payment_balance: 0,
        profit_net: 0,
        owner_uid: 1,
        store_id,
        date_completion: String::new(),
        payment_duedate: String::new(),
        created_by: 1,
        created_at: String::new(),
    }
}

fn sample_pricing() -> PricingInfo {
    PricingInfo {
        catalog: SkuObj {
            sku: 7,
            product_id: 10,
            display_name: "Sample".to_string(),
            subname: String::new(),
            unit: "pc".to_string(),
            divisible_amount: 0,
            can_divide: false,
            perishable: false,
        },
        price: PriceObject {
            sku: 7,
            price_net_retail: 1000,
            vat: "27".to_string(),
            price_gross_retail: 1270,
        },
    }
}

/// Cart C at store 1 attaches a single-item unit of catalog code 7 priced
/// net 1000 / gross 1270: the derived line carries piece 1 and those very
/// prices, and the workflow then asks to lock the unit to this cart.
#[test]
fn attach_single_item_scenario() {
    let s = AttachState::Start {
        cart_id: "C-1".to_string(),
        upl_id: "U-1".to_string(),
        actor: 9,
    };
    let (s, a) = attach_step(s, AttachEvent::Start);
    assert!(matches!(a, AttachAction::FetchUnit { ref upl_id } if upl_id == "U-1"));

    let (s, a) = attach_step(s, AttachEvent::Unit(Ok(sample_unit())));
    assert!(matches!(a, AttachAction::FetchCart { ref cart_id } if cart_id == "C-1"));

    let (s, a) = attach_step(s, AttachEvent::Cart(Ok(sample_cart("C-1", 1))));
    assert!(matches!(a, AttachAction::FetchPricing { sku: 7 }));

    let (s, a) = attach_step(s, AttachEvent::Pricing(Ok(sample_pricing())));
    match a {
        AttachAction::AttachToCart { cart_id, line } => {
            assert_eq!(cart_id, "C-1");
            assert_eq!(line.upl_id, "U-1");
            assert!(matches!(line.kind, UplKindForm::Sku { sku: 7, piece: 1 }));
            assert_eq!(line.retail_price_net, 1000);
            assert_eq!(line.retail_price_gross, 1270);
            assert_eq!(line.vat, "27");
        },
        other => panic!("expected an attach action, got {:?}", action_name(&other)),
    }

    let (s, a) = attach_step(s, AttachEvent::Attached(Ok(sample_cart("C-1", 1))));
    match a {
        AttachAction::LockToCart { upl_id, cart_id, actor } => {
            assert_eq!(upl_id, "U-1");
            assert_eq!(cart_id, "C-1");
            assert_eq!(actor, 9);
        },
        other => panic!("expected a lock action, got {:?}", action_name(&other)),
    }

    let (s, a) = attach_step(s, AttachEvent::Locked(Ok(true)));
    assert!(matches!(s, AttachState::Done));
    assert!(matches!(a, AttachAction::Succeed { .. }));
}

fn action_name(a: &AttachAction) -> &'static str {
    match a {
        AttachAction::FetchUnit { .. } => "FetchUnit",
        AttachAction::FetchCart { .. } => "FetchCart",
        AttachAction::FetchParent { .. } => "FetchParent",
        AttachAction::FetchPricing { .. } => "FetchPricing",
        AttachAction::AttachToCart { .. } => "AttachToCart",
        AttachAction::LockToCart { .. } => "LockToCart",
        AttachAction::DetachFromCart { .. } => "DetachFromCart",
        AttachAction::Succeed { .. } => "Succeed",
        AttachAction::Fail { .. } => "Fail",
    }
}

fn is_write(a: &AttachAction) -> bool {
    matches!(
        a,
        AttachAction::AttachToCart { .. } | AttachAction::LockToCart { .. }
            | AttachAction::DetachFromCart { .. }
    )
}

/// An opened-fraction unit whose catalog entry reports a zero divisible
/// base is refused with a bad request, and no write was asked for.
#[test]
fn attach_zero_base_fails_bad_request() {
    let mut unit = sample_unit();
    unit.kind = Some(UnitKind::OpenedSku { amount: 250, successors: Vec::new() });
    let mut writes = 0;

    let s = AttachState::Start {
        cart_id: "C-1".to_string(),
        upl_id: "U-1".to_string(),
        actor: 9,
    };
    let (s, a) = attach_step(s, AttachEvent::Start);
    if is_write(&a) {
        writes += 1;
    }
    let (s, a) = attach_step(s, AttachEvent::Unit(Ok(unit)));
    if is_write(&a) {
        writes += 1;
    }
    let (s, a) = attach_step(s, AttachEvent::Cart(Ok(sample_cart("C-1", 1))));
    if is_write(&a) {
        writes += 1;
    }
    // The sample pricing carries a zero divisible base.
    let (s, a) = attach_step(s, AttachEvent::Pricing(Ok(sample_pricing())));
    assert!(matches!(s, AttachState::Failed));
    match a {
        AttachAction::Fail { error } => {
            assert!(matches!(error, AttachError::ZeroDivisibleBase));
            assert!(matches!(error.to_api_error(), ApiError::BadRequest(_)));
        },
        other => panic!("expected a failure, got {:?}", action_name(&other)),
    }
    assert_eq!(writes, 0);
}

/// A derived fraction resolves its parent; a parent that is not an opened
/// unit denotes a corrupted unit graph and is an internal error.
#[test]
fn attach_derived_fraction_resolves_parent() {
    let mut unit = sample_unit();
    unit.kind = Some(UnitKind::DerivedProduct { derived_from: "U-0".to_string(), amount: 250 });

    let s = AttachState::Start {
        cart_id: "C-1".to_string(),
        upl_id: "U-1".to_string(),
        actor: 9,
    };
    let (s, _) = attach_step(s, AttachEvent::Start);
    let (s, _) = attach_step(s, AttachEvent::Unit(Ok(unit)));
    let (s, a) = attach_step(s, AttachEvent::Cart(Ok(sample_cart("C-1", 1))));
    assert!(matches!(a, AttachAction::FetchParent { ref upl_id } if upl_id == "U-0"));

    // Parent is a plain single item: corrupted unit graph.
    let (_, a) = attach_step(s, AttachEvent::Parent(Ok(sample_unit())));
    match a {
        AttachAction::Fail { error } => {
            assert!(matches!(error, AttachError::CorruptUnit));
            assert!(matches!(error.to_api_error(), ApiError::InternalError(_)));
        },
        other => panic!("expected a failure, got {:?}", action_name(&other)),
    }
}

/// A derived fraction with a proper opened parent is priced against the
/// parent's catalog code, proportionally to its amount.
#[test]
fn attach_derived_fraction_proportional_price() {
    let mut unit = sample_unit();
    unit.kind = Some(UnitKind::DerivedProduct { derived_from: "U-0".to_string(), amount: 250 });
    let mut parent = sample_unit();
    parent.id = "U-0".to_string();
    parent.sku_id = 8;
    parent.kind = Some(UnitKind::OpenedSku { amount: 700, successors: Vec::new() });

    let s = AttachState::Start {
        cart_id: "C-1".to_string(),
        upl_id: "U-1".to_string(),
        actor: 9,
    };
    let (s, _) = attach_step(s, AttachEvent::Start);
    let (s, _) = attach_step(s, AttachEvent::Unit(Ok(unit)));
    let (s, a) = attach_step(s, AttachEvent::Cart(Ok(sample_cart("C-1", 1))));
    assert!(matches!(a, AttachAction::FetchParent { .. }));
    let (s, a) = attach_step(s, AttachEvent::Parent(Ok(parent)));
    assert!(matches!(a, AttachAction::FetchPricing { sku: 8 }));

    let mut pricing = sample_pricing();
    pricing.catalog.divisible_amount = 1000;
    let (_, a) = attach_step(s, AttachEvent::Pricing(Ok(pricing)));
    match a {
        AttachAction::AttachToCart { line, .. } => {
            // 1000 * 250 / 1000 and 1270 * 250 / 1000 = 317.5 -> 318.
            assert_eq!(line.retail_price_net, 250);
            assert_eq!(line.retail_price_gross, 318);
            assert!(matches!(line.kind, UplKindForm::OpenedSku { product_id: 10, amount: 250 }));
        },
        other => panic!("expected an attach action, got {:?}", action_name(&other)),
    }
}

/// A unit at another store, or already locked to this cart, is refused
/// with a bad request.
#[test]
fn attach_guard_refusals() {
    let s = AttachState::Start {
        cart_id: "C-1".to_string(),
        upl_id: "U-1".to_string(),
        actor: 9,
    };
    let (s, _) = attach_step(s, AttachEvent::Start);
    let (s, _) = attach_step(s, AttachEvent::Unit(Ok(sample_unit())));
    let (_, a) = attach_step(s, AttachEvent::Cart(Ok(sample_cart("C-1", 2))));
    assert!(matches!(a, AttachAction::Fail { error: AttachError::WrongStore }));

    let mut locked = sample_unit();
    locked.lock = Some(UnitLock::CartLock("C-1".to_string()));
    let s = AttachState::Start {
        cart_id: "C-1".to_string(),
        upl_id: "U-1".to_string(),
        actor: 9,
    };
    let (s, _) = attach_step(s, AttachEvent::Start);
    let (s, _) = attach_step(s, AttachEvent::Unit(Ok(locked)));
    let (_, a) = attach_step(s, AttachEvent::Cart(Ok(sample_cart("C-1", 1))));
    assert!(matches!(a, AttachAction::Fail { error: AttachError::AlreadyInCart }));

    let mut discarded = sample_unit();
    discarded.location = Some(UnitLocation::Discard(4));
    let s = AttachState::Start {
        cart_id: "C-1".to_string(),
        upl_id: "U-1".to_string(),
        actor: 9,
    };
    let (s, _) = attach_step(s, AttachEvent::Start);
    let (s, _) = attach_step(s, AttachEvent::Unit(Ok(discarded)));
    let (_, a) = attach_step(s, AttachEvent::Cart(Ok(sample_cart("C-1", 1))));
    assert!(matches!(a, AttachAction::Fail { error: AttachError::NotSellable }));
}

/// When the lock step fails after a successful cart attach, the workflow
/// asks for the compensating detach: replaying the cart service's effects
/// shows the cart line for the unit absent afterward, and the unit was
/// never locked.
#[test]
fn attach_lock_failure_compensates() {
    // The cart service's line group, replayed from the workflow's actions.
    let mut lines: Vec<UplInfoForm> = Vec::new();

    let s = AttachState::Start {
        cart_id: "C-1".to_string(),
        upl_id: "U-1".to_string(),
        actor: 9,
    };
    let (s, _) = attach_step(s, AttachEvent::Start);
    let (s, _) = attach_step(s, AttachEvent::Unit(Ok(sample_unit())));
    let (s, _) = attach_step(s, AttachEvent::Cart(Ok(sample_cart("C-1", 1))));
    let (s, a) = attach_step(s, AttachEvent::Pricing(Ok(sample_pricing())));
    match a {
        AttachAction::AttachToCart { line, .. } => lines.push(line),
        other => panic!("expected an attach action, got {:?}", action_name(&other)),
    }
    assert_eq!(lines.len(), 1);

    let mut after_attach = sample_cart("C-1", 1);
    after_attach.upls_sku = vec![retail_core::cart::UplInfoObj {
        upl_id: "U-1".to_string(),
        upl_kind: Some(UplKindForm::Sku { sku: 7, piece: 1 }),
        name: "Sample".to_string(),
        retail_net_price: 1000,
        vat: "27".to_string(),
        retail_gross_price: 1270,
        procurement_net_price: 800,
        best_before: String::new(),
        depreciated: false,
    }];
    let (s, a) = attach_step(s, AttachEvent::Attached(Ok(after_attach)));
    assert!(matches!(a, AttachAction::LockToCart { .. }));

    // The lock fails: the unit stays unlocked and the workflow undoes the
    // attach.
    let lock_err = ApiError::internal_error("unit service unavailable");
    let (s, a) = attach_step(s, AttachEvent::Locked(Err(lock_err)));
    match a {
        AttachAction::DetachFromCart { cart_id, upl_id } => {
            assert_eq!(cart_id, "C-1");
            assert_eq!(upl_id, "U-1");
            lines.retain(|l| l.upl_id != upl_id);
        },
        other => panic!("expected the compensating detach, got {:?}", action_name(&other)),
    }
    assert!(lines.is_empty());

    // The compensation succeeded: the caller learns the lock failure.
    let (s, a) = attach_step(s, AttachEvent::Detached(Ok(sample_cart("C-1", 1))));
    assert!(matches!(s, AttachState::Failed));
    match a {
        AttachAction::Fail { error } => {
            assert!(matches!(error, AttachError::Remote(ApiError::InternalError(_))));
        },
        other => panic!("expected a failure, got {:?}", action_name(&other)),
    }
}

/// When both the lock and its compensating detach fail, the unit is
/// attached but unlocked: the caller learns an internal error naming
/// the inconsistency.
#[test]
fn attach_compensation_failure_is_internal() {
    let s = AttachState::Start {
        cart_id: "C-1".to_string(),
        upl_id: "U-1".to_string(),
        actor: 9,
    };
    let (s, _) = attach_step(s, AttachEvent::Start);
    let (s, _) = attach_step(s, AttachEvent::Unit(Ok(sample_unit())));
    let (s, _) = attach_step(s, AttachEvent::Cart(Ok(sample_cart("C-1", 1))));
    let (s, _) = attach_step(s, AttachEvent::Pricing(Ok(sample_pricing())));
    let (s, _) = attach_step(s, AttachEvent::Attached(Ok(sample_cart("C-1", 1))));
    let (s, _) = attach_step(
        s,
        AttachEvent::Locked(Err(ApiError::internal_error("lock refused"))),
    );
    let (s, a) = attach_step(
        s,
        AttachEvent::Detached(Err(ApiError::internal_error("detach refused"))),
    );
    assert!(matches!(s, AttachState::Failed));
    match a {
        AttachAction::Fail { error } => {
            assert!(matches!(error, AttachError::CompensationFailed { .. }));
            assert!(matches!(error.to_api_error(), ApiError::InternalError(_)));
        },
        other => panic!("expected a failure, got {:?}", action_name(&other)),
    }
}

/// A proportional price that exceeds the line item's field width marks
/// corrupted upstream data.
#[test]
fn attach_price_out_of_range() {
    let mut unit = sample_unit();
    unit.kind = Some(UnitKind::OpenedSku { amount: u32::MAX, successors: Vec::new() });
    let s = AttachState::Start {
        cart_id: "C-1".to_string(),
        upl_id: "U-1".to_string(),
        actor: 9,
    };
    let (s, _) = attach_step(s, AttachEvent::Start);
    let (s, _) = attach_step(s, AttachEvent::Unit(Ok(unit)));
    let (s, _) = attach_step(s, AttachEvent::Cart(Ok(sample_cart("C-1", 1))));
    let mut pricing = sample_pricing();
    pricing.catalog.divisible_amount = 1;
    pricing.price.price_gross_retail = u32::MAX;
    let (_, a) = attach_step(s, AttachEvent::Pricing(Ok(pricing)));
    match a {
        AttachAction::Fail { error } => {
            assert!(matches!(error, AttachError::PriceOutOfRange));
            assert!(matches!(error.to_api_error(), ApiError::InternalError(_)));
        },
        other => panic!("expected a failure, got {:?}", action_name(&other)),
    }
}

/// An updated cart that does not decode, and an event the state cannot
/// accept, are internal errors.
#[test]
fn attach_corrupt_cart_and_protocol() {
    let s = AttachState::Start {
        cart_id: "C-1".to_string(),
        upl_id: "U-1".to_string(),
        actor: 9,
    };
    let (s, _) = attach_step(s, AttachEvent::Start);
    let (s, _) = attach_step(s, AttachEvent::Unit(Ok(sample_unit())));
    let (s, _) = attach_step(s, AttachEvent::Cart(Ok(sample_cart("C-1", 1))));
    let (s, _) = attach_step(s, AttachEvent::Pricing(Ok(sample_pricing())));
    let mut bad = sample_cart("C-1", 1);
    bad.payment_kind = 99;
    let (_, a) = attach_step(s, AttachEvent::Attached(Ok(bad)));
    assert!(matches!(a, AttachAction::Fail { error: AttachError::CorruptCart }));

    let s = AttachState::Start {
        cart_id: "C-1".to_string(),
        upl_id: "U-1".to_string(),
        actor: 9,
    };
    let (_, a) = attach_step(s, AttachEvent::Locked(Ok(true)));
    assert!(matches!(a, AttachAction::Fail { error: AttachError::Unexpected }));
}

/// Detaching a unit locked to this cart releases the lock first, then
/// removes the line: the round trip of a successful attach.
#[test]
fn detach_round_trip() {
    let mut unit = sample_unit();
    unit.lock = Some(UnitLock::CartLock("C-1".to_string()));

    let s = DetachState::Start {
        cart_id: "C-1".to_string(),
        upl_id: "U-1".to_string(),
        actor: 9,
    };
    let (s, a) = detach_step(s, DetachEvent::Start);
    assert!(matches!(a, DetachAction::FetchUnit { .. }));

    let (s, a) = detach_step(s, DetachEvent::Unit(Ok(unit)));
    match a {
        DetachAction::ReleaseLock { upl_id, cart_id, actor } => {
            assert_eq!(upl_id, "U-1");
            assert_eq!(cart_id, "C-1");
            assert_eq!(actor, 9);
        },
        _ => panic!("expected the lock release first"),
    }

    let (s, a) = detach_step(s, DetachEvent::Released(Ok(true)));
    match a {
        DetachAction::DetachFromCart { cart_id, upl_id } => {
            assert_eq!(cart_id, "C-1");
            assert_eq!(upl_id, "U-1");
        },
        _ => panic!("expected the detach after the release"),
    }

    let (s, a) = detach_step(s, DetachEvent::Detached(Ok(sample_cart("C-1", 1))));
    assert!(matches!(s, DetachState::Done));
    match a {
        DetachAction::Succeed { cart } => {
            assert!(cart.upls_sku.is_empty());
            assert!(matches!(cart.payment_kind, PaymentKindForm::Cash));
        },
        _ => panic!("expected success"),
    }
}

/// A unit locked to another cart, or not cart-locked at all, cannot be
/// detached: both are bad requests.
#[test]
fn detach_guard_refusals() {
    let mut elsewhere = sample_unit();
    elsewhere.lock = Some(UnitLock::CartLock("C-2".to_string()));
    let s = DetachState::Start {
        cart_id: "C-1".to_string(),
        upl_id: "U-1".to_string(),
        actor: 9,
    };
    let (s, _) = detach_step(s, DetachEvent::Start);
    let (_, a) = detach_step(s, DetachEvent::Unit(Ok(elsewhere)));
    match a {
        DetachAction::Fail { error } => {
            assert!(matches!(error, DetachError::LockedElsewhere));
            assert!(matches!(error.to_api_error(), ApiError::BadRequest(_)));
        },
        _ => panic!("expected a failure"),
    }

    let s = DetachState::Start {
        cart_id: "C-1".to_string(),
        upl_id: "U-1".to_string(),
        actor: 9,
    };
    let (s, _) = detach_step(s, DetachEvent::Start);
    let (_, a) = detach_step(s, DetachEvent::Unit(Ok(sample_unit())));
    match a {
        DetachAction::Fail { error } => {
            assert!(matches!(error, DetachError::NotInCart));
            assert!(matches!(error.to_api_error(), ApiError::BadRequest(_)));
        },
        _ => panic!("expected a failure"),
    }
}
