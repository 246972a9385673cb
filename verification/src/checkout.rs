//! The checkout finalizer: closes a cart into a frozen purchase,
//! transitions the units still locked to the cart into their sold state,
//! and, when the closed cart asks for one, generates an invoice and links
//! it back to the purchase.
//!
//! The workflow is an explicit state machine: `checkout_step` maps the
//! current state and the latest remote-call result to the next state and
//! the next remote action. The driver performing the actions holds no
//! logic.

use vstd::prelude::*;

use crate::cart::{cart_form_of, cart_obj_well_formed, CartForm, CartObj};
use crate::error::ApiError;
use crate::invoice::{invoice_form_of, invoice_ranges_ok, InvoiceForm};
use crate::purchase::{purchase_form_of, purchase_obj_well_formed, PurchaseForm, PurchaseObj};

verus! {

/// Why a checkout attempt was refused.
#[derive(Debug)]
pub enum CheckoutError {
    /// A cart record handed back by the purchase service does not decode.
    CorruptCart,
    /// The purchase record does not decode.
    CorruptPurchase,
    /// An amount of the purchase does not fit the invoice request.
    InvoiceAmounts,
    /// A remote call failed; the failure is propagated unchanged.
    Remote(ApiError),
    /// The driver handed an event that the current state cannot accept.
    Unexpected,
}

impl CheckoutError {
    /// The outward error of a refused checkout: corrupted upstream data
    /// is an internal error, a remote failure passes through unchanged.
    pub fn to_api_error(self) -> (r: ApiError)
        ensures
            match self {
                CheckoutError::CorruptCart => r is InternalError,
                CheckoutError::CorruptPurchase => r is InternalError,
                CheckoutError::InvoiceAmounts => r is InternalError,
                CheckoutError::Remote(e) => r == e,
                CheckoutError::Unexpected => r is InternalError,
            },
    {
        match self {
            CheckoutError::CorruptCart => ApiError::internal_error(
                "cart record does not decode",
            ),
            CheckoutError::CorruptPurchase => ApiError::internal_error(
                "purchase record does not decode",
            ),
            CheckoutError::InvoiceAmounts => ApiError::internal_error(
                "purchase amount does not fit the invoice request",
            ),
            CheckoutError::Remote(e) => e,
            CheckoutError::Unexpected => ApiError::internal_error(
                "checkout workflow received an event it cannot accept",
            ),
        }
    }
}

/// State of the checkout workflow.
pub enum CheckoutState {
    Start { cart_id: String, actor: u32 },
    AwaitCart { cart_id: String, actor: u32 },
    AwaitClose { cart_id: String, actor: u32 },
    AwaitUnitsClose { closed: CartForm },
    AwaitPurchase,
    AwaitInvoice { purchase_id: String },
    AwaitSetInvoice,
    Done,
    Failed,
}

/// A remote answer handed to the checkout workflow.
pub enum CheckoutEvent {
    Start,
    Cart(Result<CartObj, ApiError>),
    Closed(Result<CartObj, ApiError>),
    UnitsClosed(Result<bool, ApiError>),
    Purchase(Result<PurchaseObj, ApiError>),
    InvoiceCreated(Result<String, ApiError>),
    InvoiceIdSet(Result<bool, ApiError>),
}

/// The next remote call (or the final outcome) the checkout workflow
/// asks its driver to perform.
pub enum CheckoutAction {
    FetchCart { cart_id: String },
    CloseCart { cart_id: String },
    CloseCartUnits { cart_id: String, actor: u32 },
    FetchPurchase { purchase_id: String },
    CreateInvoice { request: InvoiceForm },
    SetInvoiceId { purchase_id: String, invoice_id: String },
    /// Success carries no body: the caller only needs the acknowledgement.
    Succeed,
    Fail { error: CheckoutError },
}

/// The transition relation of the checkout workflow; `checkout_step` is
/// proved to satisfy it.
pub open spec fn checkout_trans(
    s: CheckoutState,
    e: CheckoutEvent,
    s2: CheckoutState,
    a: CheckoutAction,
) -> bool {
    match (s, e) {
        (CheckoutState::Start { cart_id, actor }, CheckoutEvent::Start) => {
            &&& s2 matches CheckoutState::AwaitCart { cart_id: c2, actor: a2 } && c2@ == cart_id@
                && a2 == actor
            &&& a matches CheckoutAction::FetchCart { cart_id: c3 } && c3@ == cart_id@
        },
        (CheckoutState::AwaitCart { cart_id, actor }, CheckoutEvent::Cart(res)) => match res {
            Ok(c) => {
                if cart_obj_well_formed(c) {
                    &&& s2 matches CheckoutState::AwaitClose { cart_id: c2, actor: a2 } && c2@
                        == cart_id@ && a2 == actor
                    &&& a matches CheckoutAction::CloseCart { cart_id: c3 } && c3@ == cart_id@
                } else {
                    &&& s2 is Failed
                    &&& a == (CheckoutAction::Fail { error: CheckoutError::CorruptCart })
                }
            },
            Err(err) => {
                &&& s2 is Failed
                &&& a == (CheckoutAction::Fail { error: CheckoutError::Remote(err) })
            },
        },
        (CheckoutState::AwaitClose { cart_id, actor }, CheckoutEvent::Closed(res)) => match res {
            Ok(c) => {
                if cart_obj_well_formed(c) {
                    &&& s2 matches CheckoutState::AwaitUnitsClose { closed } && cart_form_of(
                        c,
                        closed,
                    )
                    &&& a matches CheckoutAction::CloseCartUnits { cart_id: c2, actor: a2 } && c2@
                        == cart_id@ && a2 == actor
                } else {
                    &&& s2 is Failed
                    &&& a == (CheckoutAction::Fail { error: CheckoutError::CorruptCart })
                }
            },
            Err(err) => {
                &&& s2 is Failed
                &&& a == (CheckoutAction::Fail { error: CheckoutError::Remote(err) })
            },
        },
        (CheckoutState::AwaitUnitsClose { closed }, CheckoutEvent::UnitsClosed(res)) => match res {
            Ok(_) => {
                if closed.need_invoice {
                    &&& s2 is AwaitPurchase
                    &&& a matches CheckoutAction::FetchPurchase { purchase_id } && purchase_id@
                        == closed.id@
                } else {
                    &&& s2 is Done
                    &&& a is Succeed
                }
            },
            Err(err) => {
                &&& s2 is Failed
                &&& a == (CheckoutAction::Fail { error: CheckoutError::Remote(err) })
            },
        },
        (CheckoutState::AwaitPurchase, CheckoutEvent::Purchase(res)) => match res {
            Ok(po) => {
                if purchase_obj_well_formed(po) {
                    ||| exists|pf: PurchaseForm|
                        {
                            &&& #[trigger] purchase_form_of(po, pf)
                            &&& invoice_ranges_ok(pf)
                            &&& s2 matches CheckoutState::AwaitInvoice { purchase_id }
                                && purchase_id@ == po.id@
                            &&& a matches CheckoutAction::CreateInvoice { request }
                                && invoice_form_of(pf, request)
                        }
                    ||| exists|pf: PurchaseForm|
                        {
                            &&& #[trigger] purchase_form_of(po, pf)
                            &&& !invoice_ranges_ok(pf)
                            &&& s2 is Failed
                            &&& a == (CheckoutAction::Fail {
                                error: CheckoutError::InvoiceAmounts,
                            })
                        }
                } else {
                    &&& s2 is Failed
                    &&& a == (CheckoutAction::Fail { error: CheckoutError::CorruptPurchase })
                }
            },
            Err(err) => {
                &&& s2 is Failed
                &&& a == (CheckoutAction::Fail { error: CheckoutError::Remote(err) })
            },
        },
        (CheckoutState::AwaitInvoice { purchase_id }, CheckoutEvent::InvoiceCreated(res)) => match res {
            Ok(invoice_id) => {
                &&& s2 is AwaitSetInvoice
                &&& a matches CheckoutAction::SetInvoiceId { purchase_id: p2, invoice_id: i2 }
                    && p2@ == purchase_id@ && i2 == invoice_id
            },
            Err(err) => {
                &&& s2 is Failed
                &&& a == (CheckoutAction::Fail { error: CheckoutError::Remote(err) })
            },
        },
        (CheckoutState::AwaitSetInvoice, CheckoutEvent::InvoiceIdSet(res)) => match res {
            Ok(_) => {
                &&& s2 is Done
                &&& a is Succeed
            },
            Err(err) => {
                &&& s2 is Failed
                &&& a == (CheckoutAction::Fail { error: CheckoutError::Remote(err) })
            },
        },
        _ => {
            &&& s2 is Failed
            &&& a == (CheckoutAction::Fail { error: CheckoutError::Unexpected })
        },
    }
}

/// One step of the checkout workflow.
pub fn checkout_step(s: CheckoutState, e: CheckoutEvent) -> (r: (CheckoutState, CheckoutAction))
    ensures
        checkout_trans(s, e, r.0, r.1),
{
    match (s, e) {
        (CheckoutState::Start { cart_id, actor }, CheckoutEvent::Start) => {
            let fetch_id = cart_id.clone();
            (
                CheckoutState::AwaitCart { cart_id, actor },
                CheckoutAction::FetchCart { cart_id: fetch_id },
            )
        },
        (CheckoutState::AwaitCart { cart_id, actor }, CheckoutEvent::Cart(res)) => match res {
            Ok(c) => match CartForm::from_cart_obj(&c) {
                Ok(_) => {
                    let close_id = cart_id.clone();
                    (
                        CheckoutState::AwaitClose { cart_id, actor },
                        CheckoutAction::CloseCart { cart_id: close_id },
                    )
                },
                Err(_) => (
                    CheckoutState::Failed,
                    CheckoutAction::Fail { error: CheckoutError::CorruptCart },
                ),
            },
            Err(err) => (
                CheckoutState::Failed,
                CheckoutAction::Fail { error: CheckoutError::Remote(err) },
            ),
        },
        (CheckoutState::AwaitClose { cart_id, actor }, CheckoutEvent::Closed(res)) => match res {
            Ok(c) => match CartForm::from_cart_obj(&c) {
                Ok(closed) => (
                    CheckoutState::AwaitUnitsClose { closed },
                    CheckoutAction::CloseCartUnits { cart_id, actor },
                ),
                Err(_) => (
                    CheckoutState::Failed,
                    CheckoutAction::Fail { error: CheckoutError::CorruptCart },
                ),
            },
            Err(err) => (
                CheckoutState::Failed,
                CheckoutAction::Fail { error: CheckoutError::Remote(err) },
            ),
        },
        (CheckoutState::AwaitUnitsClose { closed }, CheckoutEvent::UnitsClosed(res)) => match res {
            Ok(_) => {
                if closed.need_invoice {
                    let purchase_id = closed.id.clone();
                    (
                        CheckoutState::AwaitPurchase,
                        CheckoutAction::FetchPurchase { purchase_id },
                    )
                } else {
                    (CheckoutState::Done, CheckoutAction::Succeed)
                }
            },
            Err(err) => (
                CheckoutState::Failed,
                CheckoutAction::Fail { error: CheckoutError::Remote(err) },
            ),
        },
        (CheckoutState::AwaitPurchase, CheckoutEvent::Purchase(res)) => match res {
            Ok(po) => match PurchaseForm::from_purchase_obj(&po) {
                Ok(pf) => match InvoiceForm::from_purchase_now(&pf) {
                    Ok(request) => {
                        let purchase_id = pf.purchase_id;
                        (
                            CheckoutState::AwaitInvoice { purchase_id },
                            CheckoutAction::CreateInvoice { request },
                        )
                    },
                    Err(_) => (
                        CheckoutState::Failed,
                        CheckoutAction::Fail { error: CheckoutError::InvoiceAmounts },
                    ),
                },
                Err(_) => (
                    CheckoutState::Failed,
                    CheckoutAction::Fail { error: CheckoutError::CorruptPurchase },
                ),
            },
            Err(err) => (
                CheckoutState::Failed,
                CheckoutAction::Fail { error: CheckoutError::Remote(err) },
            ),
        },
        (CheckoutState::AwaitInvoice { purchase_id }, CheckoutEvent::InvoiceCreated(res)) => match res {
            Ok(invoice_id) => (
                CheckoutState::AwaitSetInvoice,
                CheckoutAction::SetInvoiceId { purchase_id, invoice_id },
            ),
            Err(err) => (
                CheckoutState::Failed,
                CheckoutAction::Fail { error: CheckoutError::Remote(err) },
            ),
        },
        (CheckoutState::AwaitSetInvoice, CheckoutEvent::InvoiceIdSet(res)) => match res {
            Ok(_) => (CheckoutState::Done, CheckoutAction::Succeed),
            Err(err) => (
                CheckoutState::Failed,
                CheckoutAction::Fail { error: CheckoutError::Remote(err) },
            ),
        },
        (_, _) => (
            CheckoutState::Failed,
            CheckoutAction::Fail { error: CheckoutError::Unexpected },
        ),
    }
}

} // verus!
