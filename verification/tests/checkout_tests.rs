use retail_core::cart::{CartObj, CustomerForm, PaymentKindForm};
use retail_core::checkout::{
    checkout_step, CheckoutAction, CheckoutError, CheckoutEvent, CheckoutState,
};
use retail_core::error::ApiError;
use retail_core::invoice::InvoiceForm;
use retail_core::purchase::{ItemForm, ItemKindForm, LoyaltyCard, PurchaseForm, PurchaseItemObj, PurchaseObj};

fn sample_cart(id: &str, need_invoice: bool) -> CartObj {
    CartObj {
        ancestor: String::new(),
        id: id.to_string(),
        customer: None,
        commitment_id: String::new(),
        commitment_discount_percentage: 0,
        loyalty_card_id: String::new(),
        loyalty_account_id: String::new(),
        loyalty_level: String::new(),
        shopping_list: Vec::new(),
        upls_sku: Vec::new(),
        upls_unique: Vec::new(),
        total_net: 1000,
        total_vat: 270,
        total_gross: 1270,
        commitment_discount_amount_gross: 0,
        burned_points: Vec::new(),
        need_invoice,
        payment_kind: 0,
        payments: Vec::new(),
        payable: 1270,
        payment_balance: 0,
        profit_net: 200,
        owner_uid: 1,
        store_id: 1,
        date_completion: String::new(),
        payment_duedate: String::new(),
        created_by: 1,
        created_at: String::new(),
    }
}

fn sample_purchase_obj(id: &str) -> PurchaseObj {
    PurchaseObj {
        id: id.to_string(),
        customer: Some(CustomerForm {
            id: 4,
            name: "Customer".to_string(),
            zip: "1111".to_string(),
            location: "Town".to_string(),
            street: "Main 1".to_string(),
            tax_number: "123".to_string(),
        }),
        commitment_id: String::new(),
        commitment_discount_percentage: 0,
        commitment_discount_amount_gross: 0,
        loyalty_card: None,
        burned_loyalty_points: 0,
        items: vec![PurchaseItemObj {
            kind: 0,
            product_id: 10,
            name: "Sample".to_string(),
            piece: 2,
            retail_price_net: 1000,
            vat: "27".to_string(),
            retail_price_gross: 1270,
            total_retail_price_net: 2000,
            total_retail_price_gross: 2540,
            upl_ids: vec!["U-1".to_string(), "U-2".to_string()],
        }],
        upl_info_objects: Vec::new(),
        need_invoice: true,
        invoice_id: String::new(),
        total_net: 2000,
        total_vat: 540,
        total_gross: 2540,
        payment_kind: 1,
        payments: Vec::new(),
        burned_points: Vec::new(),
        payable: 2540,
        payment_balance: 0,
        date_completion: String::new(),
        payment_duedate: String::new(),
        profit_net: 400,
        restored: false,
        owner_uid: 1,
        created_by: 1,
        created_at: String::new(),
    }
}

/// Closing a cart that needs no invoice: close the cart, close its
/// units, acknowledge.
#[test]
fn checkout_without_invoice() {
    let s = CheckoutState::Start { cart_id: "C-1".to_string(), actor: 9 };
    let (s, a) = checkout_step(s, CheckoutEvent::Start);
    assert!(matches!(a, CheckoutAction::FetchCart { ref cart_id } if cart_id == "C-1"));

    let (s, a) = checkout_step(s, CheckoutEvent::Cart(Ok(sample_cart("C-1", false))));
    assert!(matches!(a, CheckoutAction::CloseCart { ref cart_id } if cart_id == "C-1"));

    let (s, a) = checkout_step(s, CheckoutEvent::Closed(Ok(sample_cart("C-1", false))));
    match a {
        CheckoutAction::CloseCartUnits { cart_id, actor } => {
            assert_eq!(cart_id, "C-1");
            assert_eq!(actor, 9);
        },
        _ => panic!("expected the unit close"),
    }

    let (s, a) = checkout_step(s, CheckoutEvent::UnitsClosed(Ok(true)));
    assert!(matches!(s, CheckoutState::Done));
    assert!(matches!(a, CheckoutAction::Succeed));
}

/// Closing a cart that asked for an invoice: after the units close, the
/// purchase is fetched, the invoice request is built from it, and the
/// invoice id is linked back to the purchase.
#[test]
fn checkout_with_invoice() {
    let s = CheckoutState::Start { cart_id: "C-1".to_string(), actor: 9 };
    let (s, _) = checkout_step(s, CheckoutEvent::Start);
    let (s, _) = checkout_step(s, CheckoutEvent::Cart(Ok(sample_cart("C-1", true))));
    let (s, _) = checkout_step(s, CheckoutEvent::Closed(Ok(sample_cart("C-1", true))));
    let (s, a) = checkout_step(s, CheckoutEvent::UnitsClosed(Ok(true)));
    assert!(matches!(a, CheckoutAction::FetchPurchase { ref purchase_id } if purchase_id == "C-1"));

    let (s, a) = checkout_step(s, CheckoutEvent::Purchase(Ok(sample_purchase_obj("C-1"))));
    match a {
        CheckoutAction::CreateInvoice { request } => {
            assert_eq!(request.purchase_id, "C-1");
            assert_eq!(request.items.len(), 1);
            assert_eq!(request.items[0].quantity, 2);
            assert_eq!(request.items[0].price_unit_net, 1000);
            assert_eq!(request.items[0].total_price_net, 2000);
            assert_eq!(request.items[0].total_price_vat, 540);
            assert_eq!(request.items[0].total_price_gross, 2540);
            assert!(matches!(request.payment_kind, PaymentKindForm::Card));
            assert_eq!(request.customer.name, "Customer");
            assert_eq!(request.total_gross, 2540);
        },
        _ => panic!("expected the invoice request"),
    }

    let (s, a) = checkout_step(s, CheckoutEvent::InvoiceCreated(Ok("INV-9".to_string())));
    match a {
        CheckoutAction::SetInvoiceId { purchase_id, invoice_id } => {
            assert_eq!(purchase_id, "C-1");
            assert_eq!(invoice_id, "INV-9");
        },
        _ => panic!("expected the invoice link"),
    }

    let (s, a) = checkout_step(s, CheckoutEvent::InvoiceIdSet(Ok(true)));
    assert!(matches!(s, CheckoutState::Done));
    assert!(matches!(a, CheckoutAction::Succeed));
}

/// A purchase record with an unknown payment-kind code is corrupted
/// upstream data: an internal error, not a caller mistake.
#[test]
fn checkout_corrupt_purchase() {
    let s = CheckoutState::Start { cart_id: "C-1".to_string(), actor: 9 };
    let (s, _) = checkout_step(s, CheckoutEvent::Start);
    let (s, _) = checkout_step(s, CheckoutEvent::Cart(Ok(sample_cart("C-1", true))));
    let (s, _) = checkout_step(s, CheckoutEvent::Closed(Ok(sample_cart("C-1", true))));
    let (s, _) = checkout_step(s, CheckoutEvent::UnitsClosed(Ok(true)));
    let mut po = sample_purchase_obj("C-1");
    po.payment_kind = 99;
    let (s, a) = checkout_step(s, CheckoutEvent::Purchase(Ok(po)));
    assert!(matches!(s, CheckoutState::Failed));
    match a {
        CheckoutAction::Fail { error } => {
            assert!(matches!(error, CheckoutError::CorruptPurchase));
            assert!(matches!(error.to_api_error(), ApiError::InternalError(_)));
        },
        _ => panic!("expected a failure"),
    }
}

fn sample_purchase_form() -> PurchaseForm {
    PurchaseForm {
        purchase_id: "P-1".to_string(),
        customer: None,
        commitment_id: String::new(),
        commitment_discount_percentage: 0,
        commitment_discount_amount_gross: 0,
        loyalty_card: None,
        burned_loyalty_points: 0,
        items: vec![ItemForm {
            kind: ItemKindForm::Sku,
            product_id: 10,
            name: "Sample".to_string(),
            piece: 1,
            retail_price_net: 1000,
            vat: "27".to_string(),
            retail_price_gross: 1270,
            total_retail_price_net: 1000,
            total_retail_price_gross: 1270,
            upl_ids: vec!["U-1".to_string()],
        }],
        upl_info_objects: Vec::new(),
        need_invoice: true,
        invoice_id: String::new(),
        total_net_price: 1000,
        total_vat: 270,
        total_gross_price: 1270,
        payment_kind: PaymentKindForm::Cash,
        payments: Vec::new(),
        burned_points: Vec::new(),
        payable: 1270,
        payment_balance: 0,
        date_completion: String::new(),
        payment_duedate: String::new(),
        profit_net: 200,
        restored: false,
        owner_uid: 1,
        created_by: 1,
        created_at: String::new(),
    }
}

/// An applied commitment discount becomes one synthetic negative line:
/// gross is the discount negated, net is back-calculated as
/// `round(gross / 1.27)`, the VAT is their difference.
#[test]
fn invoice_commitment_discount_line() {
    let mut p = sample_purchase_form();
    p.commitment_id = "CMT-1".to_string();
    p.commitment_discount_percentage = 10;
    p.commitment_discount_amount_gross = 1270;

    let inv = InvoiceForm::from_purchase(&p, "2026-01-01T00:00:00+00:00".to_string()).unwrap();
    assert_eq!(inv.items.len(), 2);
    let line = &inv.items[1];
    assert_eq!(line.total_price_gross, -1270);
    assert_eq!(line.total_price_net, -1000);
    assert_eq!(line.total_price_vat, -270);
    assert_eq!(line.price_unit_net, -1000);
    assert_eq!(line.quantity, 1);
    assert_eq!(line.vat, "27");
    assert!(line.name.contains("10%"));
    assert!(line.comment.contains("CMT-1"));
    assert_eq!(inv.date, "2026-01-01T00:00:00+00:00");
}

/// Burned loyalty points become one synthetic negative line under the
/// same VAT back-calculation; a card without burned points adds none.
#[test]
fn invoice_loyalty_discount_line() {
    let mut p = sample_purchase_form();
    p.loyalty_card = Some(LoyaltyCard {
        account_id: "ACC-1".to_string(),
        card_id: "CARD-1".to_string(),
        loyalty_level: "gold".to_string(),
        balance_opening: 500,
        burned_points: 100,
        earned_points: 12,
        balance_closing: 412,
    });

    let inv = InvoiceForm::from_purchase(&p, "2026-01-01T00:00:00+00:00".to_string()).unwrap();
    assert_eq!(inv.items.len(), 2);
    let line = &inv.items[1];
    assert_eq!(line.total_price_gross, -100);
    // round(-100 / 1.27) = -79
    assert_eq!(line.total_price_net, -79);
    assert_eq!(line.total_price_vat, -21);
    assert!(line.comment.contains("ACC-1"));

    let mut p2 = sample_purchase_form();
    p2.loyalty_card = Some(LoyaltyCard {
        account_id: "ACC-1".to_string(),
        card_id: "CARD-1".to_string(),
        loyalty_level: "gold".to_string(),
        balance_opening: 500,
        burned_points: 0,
        earned_points: 12,
        balance_closing: 512,
    });
    let inv2 = InvoiceForm::from_purchase(&p2, "2026-01-01T00:00:00+00:00".to_string()).unwrap();
    assert_eq!(inv2.items.len(), 1);
}

/// An amount that does not fit the invoice service's signed fields is
/// refused as corrupted upstream data.
#[test]
fn invoice_out_of_range_refused() {
    let mut p = sample_purchase_form();
    p.items[0].total_retail_price_gross = u32::MAX;
    let r = InvoiceForm::from_purchase(&p, String::new());
    assert!(matches!(r, Err(ApiError::InternalError(_))));
}

/// A missing customer falls back to empty customer fields.
#[test]
fn invoice_empty_customer_defaults() {
    let p = sample_purchase_form();
    let inv = InvoiceForm::from_purchase(&p, String::new()).unwrap();
    assert_eq!(inv.customer.id, 0);
    assert_eq!(inv.customer.name, "");
    assert_eq!(inv.customer.email, "");
}

/// The invoice request built "now" carries a nonempty date stamped by
/// the clock, alongside the same mapping.
#[test]
fn invoice_now_stamps_a_date() {
    let p = sample_purchase_form();
    let inv = InvoiceForm::from_purchase_now(&p).unwrap();
    assert!(!inv.date.is_empty());
    assert_eq!(inv.items.len(), 1);
}
