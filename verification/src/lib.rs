//! Core of a retail-operations orchestrator.
//!
//! Three coordinators compose the core: unit attachment (attaching a single
//! inventory unit to a shopping cart with an exclusive lock), checkout
//! finalization (closing a cart into a purchase, with conditional invoice
//! generation), and procurement reconciliation (validating a fully received
//! procurement order and bulk-creating the resulting inventory units).
//!
//! All durable state lives in remote backing services. Each coordinator is
//! therefore an explicit state machine: a pure step function from state and
//! remote-call result to next state and next remote action. The driver that
//! performs the actions lives outside this crate; every decision, validation
//! and derivation is verified here.

pub mod attachment;
pub mod cart;
pub mod catalog;
pub mod checkout;
pub mod error;
pub mod invoice;
pub mod model;
pub mod money;
pub mod procurement;
pub mod purchase;
pub mod reconcile;
pub mod text;
pub mod upl;
