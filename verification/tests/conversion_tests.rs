use retail_core::cart::{
    CartForm, CartObj, PaymentKindForm, UplInfoForm, UplInfoObj, UplKindForm,
};
use retail_core::error::ApiError;
use retail_core::procurement::{
    status_from_code, status_to_code, ProcurementForm, ProcurementInfoForm, ProcurementInfoObj,
    ProcurementItemForm, ProcurementObj, StatusForm, UplCandidateForm,
};
use retail_core::upl::{
    Location, Lock, Unit, UnitDepreciation, UnitKind, UnitLocation, UnitLock, UplForm, UplKind,
};

fn sample_unit() -> Unit {
    Unit {
        id: "U-1".to_string(),
        product_id: 10,
        sku_id: 7,
        upl_piece: 4,
        sku_divisible_amount: 1000,
        kind: Some(UnitKind::BulkSku { sku: 7, upl_pieces: 4 }),
        lock: Some(UnitLock::DeliveryLock(12)),
        location: Some(UnitLocation::Stock(3)),
        price_net: 1000,
        vat: "27".to_string(),
        price_gross: 1270,
        margin_net: 150,
        procurement_id: 55,
        procurement_net_price: 800,
        procurement_net_price_sku: 800,
        is_divisible: false,
        has_special_price: false,
        depreciation: Some(UnitDepreciation {
            depreciation_id: 2,
            depreciation_comment: "dented".to_string(),
        }),
        best_before: "2026-12-31".to_string(),
        is_healthy: true,
        is_archived: false,
        product_unit: "pc".to_string(),
        created_by: 1,
        created_at: "2026-01-01".to_string(),
    }
}

#[test]
fn upl_form_maps_every_field() {
    let f = UplForm::from_unit(&sample_unit()).unwrap();
    assert_eq!(f.upl_id, "U-1");
    assert_eq!(f.product_id, 10);
    assert!(matches!(f.upl_kind, UplKind::BulkSku));
    assert_eq!(f.sku, 7);
    assert_eq!(f.pieces, 4);
    // A whole unit's divisible amount is one.
    assert_eq!(f.divisible_amount, 1);
    assert_eq!(f.derived_successors, None);
    assert_eq!(f.derived_from, None);
    assert!(f.is_depreciated);
    assert_eq!(f.depreciation_id, Some(2));
    assert_eq!(f.depreciation_comment.as_deref(), Some("dented"));
    assert!(matches!(f.lock, Some(Lock::DeliveryLock)));
    // Numeric lock owners render in decimal.
    assert_eq!(f.lock_id.as_deref(), Some("12"));
    assert!(matches!(f.location, Location::Stock));
    assert_eq!(f.location_id, "3");
    assert_eq!(f.vat, "27");
    assert_eq!(f.price_net, 1000);
    assert_eq!(f.price_gross, 1270);
}

#[test]
fn upl_form_opened_and_derived_fields() {
    let mut u = sample_unit();
    u.kind = Some(UnitKind::OpenedSku {
        amount: 750,
        successors: vec!["U-2".to_string()],
    });
    u.lock = Some(UnitLock::NoLock);
    u.location = Some(UnitLocation::Cart("C-1".to_string()));
    let f = UplForm::from_unit(&u).unwrap();
    assert!(matches!(f.upl_kind, UplKind::OpenedSku));
    assert_eq!(f.divisible_amount, 750);
    assert_eq!(f.derived_successors, Some(vec!["U-2".to_string()]));
    // An explicit no-lock reports no lock at all.
    assert_eq!(f.lock, None);
    assert_eq!(f.lock_id, None);
    assert!(matches!(f.location, Location::Cart));
    assert_eq!(f.location_id, "C-1");

    let mut u = sample_unit();
    u.kind = Some(UnitKind::DerivedProduct { derived_from: "U-9".to_string(), amount: 250 });
    let f = UplForm::from_unit(&u).unwrap();
    assert!(matches!(f.upl_kind, UplKind::DerivedProduct));
    assert_eq!(f.derived_from.as_deref(), Some("U-9"));
    assert_eq!(f.divisible_amount, 250);
}

#[test]
fn upl_form_refuses_missing_tags() {
    let mut u = sample_unit();
    u.kind = None;
    assert!(matches!(UplForm::from_unit(&u), Err(ApiError::InternalError(_))));

    let mut u = sample_unit();
    u.lock = None;
    assert!(matches!(UplForm::from_unit(&u), Err(ApiError::InternalError(_))));

    let mut u = sample_unit();
    u.location = None;
    assert!(matches!(UplForm::from_unit(&u), Err(ApiError::InternalError(_))));
}

fn sample_cart_obj() -> CartObj {
    CartObj {
        ancestor: "C-0".to_string(),
        id: "C-1".to_string(),
        customer: None,
        commitment_id: String::new(),
        commitment_discount_percentage: 0,
        loyalty_card_id: String::new(),
        loyalty_account_id: String::new(),
        loyalty_level: String::new(),
        shopping_list: Vec::new(),
        upls_sku: vec![UplInfoObj {
            upl_id: "U-1".to_string(),
            upl_kind: Some(UplKindForm::Sku { sku: 7, piece: 1 }),
            name: "Sample".to_string(),
            retail_net_price: 1000,
            vat: "27".to_string(),
            retail_gross_price: 1270,
            procurement_net_price: 800,
            best_before: String::new(),
            depreciated: false,
        }],
        upls_unique: Vec::new(),
        total_net: 1000,
        total_vat: 270,
        total_gross: 1270,
        commitment_discount_amount_gross: 0,
        burned_points: Vec::new(),
        need_invoice: false,
        payment_kind: 2,
        payments: Vec::new(),
        payable: 1270,
        payment_balance: 0,
        profit_net: 200,
        owner_uid: 1,
        store_id: 1,
        date_completion: String::new(),
        payment_duedate: String::new(),
        created_by: 1,
        created_at: String::new(),
    }
}

#[test]
fn cart_form_maps_lines_and_payment_kind() {
    let f = CartForm::from_cart_obj(&sample_cart_obj()).unwrap();
    assert_eq!(f.id, "C-1");
    assert_eq!(f.ancestor, "C-0");
    assert!(matches!(f.payment_kind, PaymentKindForm::Transfer));
    assert_eq!(f.upls_sku.len(), 1);
    assert_eq!(f.upls_sku[0].upl_id, "U-1");
    assert!(matches!(f.upls_sku[0].kind, UplKindForm::Sku { sku: 7, piece: 1 }));
    assert_eq!(f.upls_sku[0].retail_price_net, 1000);
}

#[test]
fn cart_form_refuses_bad_codes() {
    let mut c = sample_cart_obj();
    c.payment_kind = 5;
    assert!(matches!(CartForm::from_cart_obj(&c), Err(ApiError::InternalError(_))));

    let mut c = sample_cart_obj();
    c.upls_sku[0].upl_kind = None;
    assert!(matches!(CartForm::from_cart_obj(&c), Err(ApiError::InternalError(_))));
}

#[test]
fn unit_line_form_from_wire() {
    let o = UplInfoObj {
        upl_id: "U-1".to_string(),
        upl_kind: Some(UplKindForm::OpenedSku { product_id: 10, amount: 250 }),
        name: "Sample".to_string(),
        retail_net_price: 250,
        vat: "27".to_string(),
        retail_gross_price: 318,
        procurement_net_price: 200,
        best_before: String::new(),
        depreciated: true,
    };
    let f = UplInfoForm::from_info_obj(&o).unwrap();
    assert!(matches!(f.kind, UplKindForm::OpenedSku { product_id: 10, amount: 250 }));
    assert!(f.depreciated);

    let o = UplInfoObj { upl_kind: None, ..o };
    assert!(matches!(UplInfoForm::from_info_obj(&o), Err(ApiError::InternalError(_))));
}

#[test]
fn procurement_status_codes_round_trip() {
    for status in [
        StatusForm::New,
        StatusForm::Ordered,
        StatusForm::Arrived,
        StatusForm::Processing,
        StatusForm::Closed,
    ] {
        let code = status_to_code(status);
        assert_eq!(status_from_code(code).unwrap(), status);
    }
    assert!(matches!(status_from_code(9), Err(ApiError::InternalError(_))));
}

#[test]
fn procurement_form_from_wire() {
    let p = ProcurementObj {
        id: 55,
        source_id: 3,
        reference: "REF-1".to_string(),
        estimated_delivery_date: "2026-02-01".to_string(),
        items: vec![ProcurementItemForm { sku: 7, ordered_amount: 3, expected_net_price: 800 }],
        upls: vec![UplCandidateForm {
            upl_id: "N-1".to_string(),
            sku: 7,
            upl_piece: 3,
            opened_sku: false,
            best_before: String::new(),
        }],
        status: 3,
        created_at: String::new(),
        created_by: 1,
    };
    let f = ProcurementForm::from_procurement_obj(&p).unwrap();
    assert_eq!(f.id, 55);
    assert_eq!(f.status, StatusForm::Processing);
    assert_eq!(f.items.len(), 1);
    assert_eq!(f.upls[0].upl_id, "N-1");

    let p = ProcurementObj { status: 11, ..p };
    assert!(matches!(
        ProcurementForm::from_procurement_obj(&p),
        Err(ApiError::InternalError(_))
    ));
}

#[test]
fn procurement_info_form_from_wire() {
    let o = ProcurementInfoObj {
        id: 55,
        source_id: 3,
        sku_count: 1,
        sku_piece_count: 3,
        upl_count: 2,
        estimated_delivery_date: "2026-02-01".to_string(),
        status: 1,
        created_at: String::new(),
        created_by: 1,
    };
    let f = ProcurementInfoForm::from_info_obj(&o).unwrap();
    assert_eq!(f.status, StatusForm::Ordered);
    assert_eq!(f.sku_piece_count, 3);

    let o = ProcurementInfoObj { status: 42, ..o };
    assert!(matches!(
        ProcurementInfoForm::from_info_obj(&o),
        Err(ApiError::InternalError(_))
    ));
}

#[test]
fn api_error_constructors() {
    assert!(matches!(ApiError::not_found(), ApiError::NotFound));
    assert!(matches!(ApiError::unauthorized(), ApiError::Unauthorized));
    match ApiError::bad_request("wrong store") {
        ApiError::BadRequest(m) => assert_eq!(m, "wrong store"),
        _ => panic!("expected a bad request"),
    }
    match ApiError::internal_error("corrupted record") {
        ApiError::InternalError(m) => assert_eq!(m, "corrupted record"),
        _ => panic!("expected an internal error"),
    }
}
