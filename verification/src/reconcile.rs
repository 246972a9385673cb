//! The procurement reconciler: validates a fully received procurement
//! order against its line items and bulk-creates the resulting inventory
//! units.
//!
//! Closing is a validation-then-commit pipeline. For every ordered line
//! item, the catalog and price records must resolve, a perishable catalog
//! code requires a best-before date on every matching candidate, and the
//! received quantity (one per opened unit, the piece count otherwise)
//! must equal the ordered amount exactly. Only then is the accumulated
//! list of unit-creation requests submitted, and only the Processing
//! status may be closed, because closing triggers irreversible unit
//! creation.
//!
//! All state lives in remote services, so the workflow is an explicit
//! state machine: `close_step` maps the current state and the latest
//! remote-call result to the next state and the next remote action. The
//! driver performing the actions holds no logic.

use vstd::prelude::*;

use crate::catalog::{PriceObject, SkuObj};
use crate::error::ApiError;
use crate::procurement::{ProcurementForm, ProcurementItemForm, StatusForm, UplCandidateForm};
use crate::text::{dec_digits, msg_with_id};
use crate::upl::Unit;

verus! {

/// A unit-creation request, one per received-unit candidate.
#[derive(Debug)]
pub struct UplNew {
    pub upl_id: String,
    pub product_id: u32,
    pub sku: u32,
    pub best_before: String,
    pub stock_id: u32,
    pub procurement_id: u32,
    pub is_opened: bool,
    pub created_by: u32,
    pub product_unit: String,
    pub piece: u32,
    pub sku_divisible_amount: u32,
    pub sku_divisible: bool,
    pub sku_net_price: u32,
    pub sku_vat: String,
    pub sku_gross_price: u32,
    pub procurement_net_price_sku: u32,
}

/// Why a procurement close attempt was refused.
#[derive(Debug)]
pub enum CloseError {
    /// The status is not Processing; only that edge may be closed here.
    NotProcessing,
    /// Candidate unit identifiers that already exist in the inventory.
    IdCollision(Vec<String>),
    /// An ordered line references a catalog code with no catalog record.
    UnknownSku(u32),
    /// An ordered line references a catalog code with no retail price.
    MissingPrice(u32),
    /// A perishable catalog code has a candidate without a best-before date.
    MissingBestBefore(u32),
    /// Candidate quantities do not sum to the ordered amount.
    AmountMismatch(u32),
    /// A remote call failed; the failure is propagated unchanged.
    Remote(ApiError),
    /// The driver handed an event that the current state cannot accept.
    Unexpected,
}

impl CloseError {
    /// The outward error of a refused close: every domain refusal is a
    /// bad request, a remote failure passes through unchanged, and a
    /// protocol violation is an internal error.
    pub fn to_api_error(self) -> (r: ApiError)
        ensures
            match self {
                CloseError::NotProcessing => r matches ApiError::BadRequest(m) && m@
                    == "procurement cannot be closed: its status is not processing"@,
                CloseError::IdCollision(_) => r matches ApiError::BadRequest(m) && m@
                    == "procurement cannot be closed: candidate unit ids are already in use"@,
                CloseError::UnknownSku(sku) => r matches ApiError::BadRequest(m) && m@
                    == "procurement references an unknown catalog code: "@ + dec_digits(
                    sku as nat,
                ),
                CloseError::MissingPrice(sku) => r matches ApiError::BadRequest(m) && m@
                    == "catalog code has no retail price: "@ + dec_digits(sku as nat),
                CloseError::MissingBestBefore(sku) => r matches ApiError::BadRequest(m) && m@
                    == "perishable catalog code has a candidate without a best-before date: "@
                    + dec_digits(sku as nat),
                CloseError::AmountMismatch(sku) => r matches ApiError::BadRequest(m) && m@
                    == "candidate quantities do not match the ordered amount for catalog code: "@
                    + dec_digits(sku as nat),
                CloseError::Remote(e) => r == e,
                CloseError::Unexpected => r is InternalError,
            },
    {
        match self {
            CloseError::NotProcessing => ApiError::bad_request(
                "procurement cannot be closed: its status is not processing",
            ),
            CloseError::IdCollision(_) => ApiError::bad_request(
                "procurement cannot be closed: candidate unit ids are already in use",
            ),
            CloseError::UnknownSku(sku) => ApiError::BadRequest(
                msg_with_id("procurement references an unknown catalog code: ", sku),
            ),
            CloseError::MissingPrice(sku) => ApiError::BadRequest(
                msg_with_id("catalog code has no retail price: ", sku),
            ),
            CloseError::MissingBestBefore(sku) => ApiError::BadRequest(
                msg_with_id(
                    "perishable catalog code has a candidate without a best-before date: ",
                    sku,
                ),
            ),
            CloseError::AmountMismatch(sku) => ApiError::BadRequest(
                msg_with_id(
                    "candidate quantities do not match the ordered amount for catalog code: ",
                    sku,
                ),
            ),
            CloseError::Remote(e) => e,
            CloseError::Unexpected => ApiError::internal_error(
                "close workflow received an event it cannot accept",
            ),
        }
    }
}

/// Received quantity a candidate contributes: one for an opened unit,
/// its piece count otherwise.
pub open spec fn candidate_quantity(c: UplCandidateForm) -> int {
    if c.opened_sku {
        1
    } else {
        c.upl_piece as int
    }
}

/// Sum of received quantities of the candidates for one catalog code.
pub open spec fn received_sum(upls: Seq<UplCandidateForm>, sku: u32) -> int
    decreases upls.len(),
{
    if upls.len() == 0 {
        0
    } else {
        received_sum(upls.drop_last(), sku) + if upls.last().sku == sku {
            candidate_quantity(upls.last())
        } else {
            0
        }
    }
}

/// Every candidate for the catalog code carries a best-before date.
pub open spec fn perishable_ok(upls: Seq<UplCandidateForm>, sku: u32) -> bool {
    forall|i: int|
        0 <= i < upls.len() && (#[trigger] upls[i]).sku == sku ==> upls[i].best_before@.len() > 0
}

/// The first catalog record for a code, if any.
pub open spec fn spec_find_sku(skus: Seq<SkuObj>, sku: u32) -> Option<SkuObj>
    decreases skus.len(),
{
    if skus.len() == 0 {
        None
    } else if skus[0].sku == sku {
        Some(skus[0])
    } else {
        spec_find_sku(skus.drop_first(), sku)
    }
}

/// The first price record for a code, if any.
pub open spec fn spec_find_price(prices: Seq<PriceObject>, sku: u32) -> Option<PriceObject>
    decreases prices.len(),
{
    if prices.len() == 0 {
        None
    } else if prices[0].sku == sku {
        Some(prices[0])
    } else {
        spec_find_price(prices.drop_first(), sku)
    }
}

/// The unit-creation request a candidate becomes, given its resolved
/// catalog and price records. Units are received into the central store.
pub open spec fn spec_upl_new(
    c: UplCandidateForm,
    so: SkuObj,
    po: PriceObject,
    item: ProcurementItemForm,
    procurement_id: u32,
    actor: u32,
) -> UplNew {
    UplNew {
        upl_id: c.upl_id,
        product_id: so.product_id,
        sku: c.sku,
        best_before: c.best_before,
        stock_id: 1,
        procurement_id,
        is_opened: c.opened_sku,
        created_by: actor,
        product_unit: so.unit,
        piece: c.upl_piece,
        sku_divisible_amount: so.divisible_amount,
        sku_divisible: so.can_divide,
        sku_net_price: po.price_net_retail,
        sku_vat: po.vat,
        sku_gross_price: po.price_gross_retail,
        procurement_net_price_sku: item.expected_net_price,
    }
}

/// The creation requests of one ordered line: its candidates, in order.
pub open spec fn units_for_line(
    upls: Seq<UplCandidateForm>,
    so: SkuObj,
    po: PriceObject,
    item: ProcurementItemForm,
    procurement_id: u32,
    actor: u32,
) -> Seq<UplNew>
    decreases upls.len(),
{
    if upls.len() == 0 {
        Seq::empty()
    } else {
        let rest = units_for_line(upls.drop_last(), so, po, item, procurement_id, actor);
        if upls.last().sku == item.sku {
            rest.push(spec_upl_new(upls.last(), so, po, item, procurement_id, actor))
        } else {
            rest
        }
    }
}

/// The creation requests of the whole procurement: the lines in order,
/// each line's candidates in order.
pub open spec fn all_units(
    items: Seq<ProcurementItemForm>,
    upls: Seq<UplCandidateForm>,
    skus: Seq<SkuObj>,
    prices: Seq<PriceObject>,
    procurement_id: u32,
    actor: u32,
) -> Seq<UplNew>
    decreases items.len(),
{
    if items.len() == 0 {
        Seq::empty()
    } else {
        all_units(items.drop_last(), upls, skus, prices, procurement_id, actor) + units_for_line(
            upls,
            spec_find_sku(skus, items.last().sku)->Some_0,
            spec_find_price(prices, items.last().sku)->Some_0,
            items.last(),
            procurement_id,
            actor,
        )
    }
}

/// The refusal an ordered line provokes, if any, in check order: missing
/// catalog record, missing price, missing best-before on a perishable
/// code, quantity mismatch.
pub open spec fn line_error(
    item: ProcurementItemForm,
    upls: Seq<UplCandidateForm>,
    skus: Seq<SkuObj>,
    prices: Seq<PriceObject>,
) -> Option<CloseError> {
    if spec_find_sku(skus, item.sku) is None {
        Some(CloseError::UnknownSku(item.sku))
    } else if spec_find_price(prices, item.sku) is None {
        Some(CloseError::MissingPrice(item.sku))
    } else if spec_find_sku(skus, item.sku)->Some_0.perishable && !perishable_ok(upls, item.sku) {
        Some(CloseError::MissingBestBefore(item.sku))
    } else if received_sum(upls, item.sku) != item.ordered_amount {
        Some(CloseError::AmountMismatch(item.sku))
    } else {
        None
    }
}

/// Every ordered line passes its checks.
pub open spec fn all_lines_ok(
    items: Seq<ProcurementItemForm>,
    upls: Seq<UplCandidateForm>,
    skus: Seq<SkuObj>,
    prices: Seq<PriceObject>,
) -> bool {
    forall|i: int| 0 <= i < items.len() ==> (#[trigger] line_error(items[i], upls, skus, prices)) is None
}

fn find_sku(skus: &Vec<SkuObj>, sku: u32) -> (r: Option<SkuObj>)
    ensures
        r == spec_find_sku(skus@, sku),
{
    let mut i: usize = 0;
    proof {
        assert(skus@.subrange(0, skus@.len() as int) =~= skus@);
    }
    while i < skus.len()
        invariant
            i <= skus.len(),
            spec_find_sku(skus@, sku) == spec_find_sku(
                skus@.subrange(i as int, skus@.len() as int),
                sku,
            ),
        decreases skus.len() - i,
    {
        let suffix = Ghost(skus@.subrange(i as int, skus@.len() as int));
        if skus[i].sku == sku {
            proof {
                assert(suffix@[0] == skus@[i as int]);
            }
            return Some(skus[i].clone());
        }
        proof {
            assert(suffix@.drop_first() =~= skus@.subrange(i as int + 1, skus@.len() as int));
        }
        i = i + 1;
    }
    proof {
        assert(skus@.subrange(i as int, skus@.len() as int).len() == 0);
    }
    None
}

fn find_price(prices: &Vec<PriceObject>, sku: u32) -> (r: Option<PriceObject>)
    ensures
        r == spec_find_price(prices@, sku),
{
    let mut i: usize = 0;
    proof {
        assert(prices@.subrange(0, prices@.len() as int) =~= prices@);
    }
    while i < prices.len()
        invariant
            i <= prices.len(),
            spec_find_price(prices@, sku) == spec_find_price(
                prices@.subrange(i as int, prices@.len() as int),
                sku,
            ),
        decreases prices.len() - i,
    {
        let suffix = Ghost(prices@.subrange(i as int, prices@.len() as int));
        if prices[i].sku == sku {
            proof {
                assert(suffix@[0] == prices@[i as int]);
            }
            return Some(prices[i].clone());
        }
        proof {
            assert(suffix@.drop_first() =~= prices@.subrange(i as int + 1, prices@.len() as int));
        }
        i = i + 1;
    }
    proof {
        assert(prices@.subrange(i as int, prices@.len() as int).len() == 0);
    }
    None
}

fn all_best_before_set(upls: &Vec<UplCandidateForm>, sku: u32) -> (r: bool)
    ensures
        r == perishable_ok(upls@, sku),
{
    let mut i: usize = 0;
    while i < upls.len()
        invariant
            i <= upls.len(),
            forall|j: int|
                0 <= j < i && (#[trigger] upls@[j]).sku == sku ==> upls@[j].best_before@.len() > 0,
        decreases upls.len() - i,
    {
        if upls[i].sku == sku && upls[i].best_before.as_str().unicode_len() == 0 {
            proof {
                assert(upls@[i as int].sku == sku && upls@[i as int].best_before@.len() == 0);
            }
            return false;
        }
        i = i + 1;
    }
    true
}

fn received_sum_exec(upls: &Vec<UplCandidateForm>, sku: u32) -> (r: u128)
    ensures
        r as int == received_sum(upls@, sku),
{
    let mut acc: u128 = 0;
    let mut i: usize = 0;
    while i < upls.len()
        invariant
            i <= upls.len(),
            acc as int == received_sum(upls@.subrange(0, i as int), sku),
            acc <= i as int * 0xffff_ffff,
        decreases upls.len() - i,
    {
        let prefix = Ghost(upls@.subrange(0, i as int + 1));
        proof {
            assert(prefix@.drop_last() =~= upls@.subrange(0, i as int));
            assert(prefix@.last() == upls@[i as int]);
            assert(received_sum(prefix@, sku) == received_sum(prefix@.drop_last(), sku) + (
            if prefix@.last().sku == sku {
                candidate_quantity(prefix@.last())
            } else {
                0
            }));
        }
        if upls[i].sku == sku {
            if upls[i].opened_sku {
                acc = acc + 1;
            } else {
                acc = acc + upls[i].upl_piece as u128;
            }
        }
        i = i + 1;
    }
    proof {
        assert(upls@.subrange(0, i as int) =~= upls@);
    }
    acc
}

/// Builds the full list of unit-creation requests for a procurement,
/// validating every ordered line. On refusal, the error names the first
/// failing line's catalog code; no earlier line has failed.
pub fn build_unit_candidates(
    p: &ProcurementForm,
    skus: &Vec<SkuObj>,
    prices: &Vec<PriceObject>,
    actor: u32,
) -> (r: Result<Vec<UplNew>, CloseError>)
    ensures
        r is Ok <==> all_lines_ok(p.items@, p.upls@, skus@, prices@),
        r matches Ok(units) ==> units@ == all_units(
            p.items@,
            p.upls@,
            skus@,
            prices@,
            p.id,
            actor,
        ),
        r matches Err(e) ==> exists|i: int|
            0 <= i < p.items@.len() && line_error(#[trigger] p.items@[i], p.upls@, skus@, prices@)
                == Some(e) && forall|j: int|
                0 <= j < i ==> line_error(#[trigger] p.items@[j], p.upls@, skus@, prices@) is None,
{
    let mut units: Vec<UplNew> = Vec::new();
    let mut i: usize = 0;
    while i < p.items.len()
        invariant
            i <= p.items.len(),
            forall|j: int|
                0 <= j < i ==> line_error(#[trigger] p.items@[j], p.upls@, skus@, prices@) is None,
            units@ == all_units(
                p.items@.subrange(0, i as int),
                p.upls@,
                skus@,
                prices@,
                p.id,
                actor,
            ),
        decreases p.items.len() - i,
    {
        let item = p.items[i];
        let so = match find_sku(skus, item.sku) {
            Some(so) => so,
            None => {
                return Err(CloseError::UnknownSku(item.sku));
            },
        };
        let po = match find_price(prices, item.sku) {
            Some(po) => po,
            None => {
                return Err(CloseError::MissingPrice(item.sku));
            },
        };
        if so.perishable && !all_best_before_set(&p.upls, item.sku) {
            return Err(CloseError::MissingBestBefore(item.sku));
        }
        let sum = received_sum_exec(&p.upls, item.sku);
        if sum != item.ordered_amount as u128 {
            return Err(CloseError::AmountMismatch(item.sku));
        }

        // Collect this line's candidates, in order.
        let mut j: usize = 0;
        while j < p.upls.len()
            invariant
                j <= p.upls.len(),
                units@ == all_units(
                    p.items@.subrange(0, i as int),
                    p.upls@,
                    skus@,
                    prices@,
                    p.id,
                    actor,
                ) + units_for_line(
                    p.upls@.subrange(0, j as int),
                    so,
                    po,
                    item,
                    p.id,
                    actor,
                ),
                i < p.items.len(),
                item == p.items@[i as int],
                spec_find_sku(skus@, item.sku) == Some(so),
                spec_find_price(prices@, item.sku) == Some(po),
            decreases p.upls.len() - j,
        {
            let prefix = Ghost(p.upls@.subrange(0, j as int + 1));
            proof {
                assert(prefix@.drop_last() =~= p.upls@.subrange(0, j as int));
                assert(prefix@.last() == p.upls@[j as int]);
            }
            let c = &p.upls[j];
            if c.sku == item.sku {
                units.push(UplNew {
                    upl_id: c.upl_id.clone(),
                    product_id: so.product_id,
                    sku: c.sku,
                    best_before: c.best_before.clone(),
                    stock_id: 1,
                    procurement_id: p.id,
                    is_opened: c.opened_sku,
                    created_by: actor,
                    product_unit: so.unit.clone(),
                    piece: c.upl_piece,
                    sku_divisible_amount: so.divisible_amount,
                    sku_divisible: so.can_divide,
                    sku_net_price: po.price_net_retail,
                    sku_vat: po.vat.clone(),
                    sku_gross_price: po.price_gross_retail,
                    procurement_net_price_sku: item.expected_net_price,
                });
            }
            j = j + 1;
        }
        proof {
            assert(p.upls@.subrange(0, p.upls@.len() as int) =~= p.upls@);
            let next = p.items@.subrange(0, i as int + 1);
            assert(next.drop_last() =~= p.items@.subrange(0, i as int));
            assert(next.last() == p.items@[i as int]);
        }
        i = i + 1;
    }
    proof {
        assert(p.items@.subrange(0, i as int) =~= p.items@);
    }
    Ok(units)
}

/// State of the close workflow: what was already gathered and which
/// remote answer is awaited.
pub enum CloseProcState {
    Start { procurement_id: u32, actor: u32 },
    AwaitProcurement { actor: u32 },
    AwaitIdCheck { procurement: ProcurementForm, actor: u32 },
    AwaitSkus { procurement: ProcurementForm, actor: u32 },
    AwaitPrices { procurement: ProcurementForm, skus: Vec<SkuObj>, actor: u32 },
    AwaitCreate { procurement_id: u32, submitted: usize, actor: u32 },
    AwaitAlert { procurement_id: u32, actor: u32 },
    AwaitStatus,
    Done,
    Failed,
}

/// A remote answer handed to the close workflow.
pub enum CloseProcEvent {
    Start,
    Procurement(Result<ProcurementForm, ApiError>),
    ExistingUnits(Result<Vec<Unit>, ApiError>),
    Skus(Result<Vec<SkuObj>, ApiError>),
    Prices(Result<Vec<PriceObject>, ApiError>),
    Created(Result<Vec<String>, ApiError>),
    AlertSent(Result<bool, ApiError>),
    Closed(Result<ProcurementForm, ApiError>),
}

/// The next remote call (or the final outcome) the close workflow asks
/// its driver to perform.
pub enum CloseProcAction {
    FetchProcurement { procurement_id: u32 },
    CheckUnitIds { upl_ids: Vec<String> },
    FetchSkus { sku_ids: Vec<u32> },
    FetchPrices { sku_ids: Vec<u32> },
    CreateUnits { units: Vec<UplNew> },
    /// Best-effort operational alert: its failure must not fail the close.
    SendAlert { procurement_id: u32, submitted: usize, created: usize },
    SetStatusClosed { procurement_id: u32, actor: u32 },
    Succeed { procurement: ProcurementForm },
    Fail { error: CloseError },
}

/// The transition relation of the close workflow: from state `s` under
/// event `e` the machine moves to `s2` and asks for `a`. This is the
/// workflow's whole contract; `close_step` is proved to satisfy it.
pub open spec fn close_trans(
    s: CloseProcState,
    e: CloseProcEvent,
    s2: CloseProcState,
    a: CloseProcAction,
) -> bool {
    match (s, e) {
        (CloseProcState::Start { procurement_id, actor }, CloseProcEvent::Start) => {
            &&& s2 == (CloseProcState::AwaitProcurement { actor })
            &&& a == (CloseProcAction::FetchProcurement { procurement_id })
        },
        (CloseProcState::AwaitProcurement { actor }, CloseProcEvent::Procurement(res)) => match res {
            Ok(p) => {
                if p.status == StatusForm::Processing {
                    &&& s2 matches CloseProcState::AwaitIdCheck { procurement, actor: a2 }
                        && procurement == p && a2 == actor
                    &&& a matches CloseProcAction::CheckUnitIds { upl_ids } && upl_ids@
                        == p.upls@.map_values(|c: UplCandidateForm| c.upl_id)
                } else {
                    &&& s2 is Failed
                    &&& a == (CloseProcAction::Fail { error: CloseError::NotProcessing })
                }
            },
            Err(err) => {
                &&& s2 is Failed
                &&& a == (CloseProcAction::Fail { error: CloseError::Remote(err) })
            },
        },
        (CloseProcState::AwaitIdCheck { procurement, actor }, CloseProcEvent::ExistingUnits(res)) => match res {
            Ok(found) => {
                if found@.len() > 0 {
                    &&& s2 is Failed
                    &&& a matches CloseProcAction::Fail { error: CloseError::IdCollision(ids) }
                        && ids@ == found@.map_values(|u: Unit| u.id)
                } else {
                    &&& s2 matches CloseProcState::AwaitSkus { procurement: p2, actor: a2 }
                        && p2 == procurement && a2 == actor
                    &&& a matches CloseProcAction::FetchSkus { sku_ids } && sku_ids@
                        == procurement.items@.map_values(|it: ProcurementItemForm| it.sku)
                }
            },
            Err(err) => {
                &&& s2 is Failed
                &&& a == (CloseProcAction::Fail { error: CloseError::Remote(err) })
            },
        },
        (CloseProcState::AwaitSkus { procurement, actor }, CloseProcEvent::Skus(res)) => match res {
            Ok(skus) => {
                &&& s2 matches CloseProcState::AwaitPrices { procurement: p2, skus: s3, actor: a2 }
                    && p2 == procurement && s3@ == skus@ && a2 == actor
                &&& a matches CloseProcAction::FetchPrices { sku_ids } && sku_ids@
                    == procurement.items@.map_values(|it: ProcurementItemForm| it.sku)
            },
            Err(err) => {
                &&& s2 is Failed
                &&& a == (CloseProcAction::Fail { error: CloseError::Remote(err) })
            },
        },
        (CloseProcState::AwaitPrices { procurement, skus, actor }, CloseProcEvent::Prices(res)) => match res {
            Ok(prices) => {
                if all_lines_ok(procurement.items@, procurement.upls@, skus@, prices@) {
                    &&& s2 matches CloseProcState::AwaitCreate {
                        procurement_id,
                        submitted,
                        actor: a2,
                    } && procurement_id == procurement.id && a2 == actor && submitted as int
                        == all_units(
                        procurement.items@,
                        procurement.upls@,
                        skus@,
                        prices@,
                        procurement.id,
                        actor,
                    ).len()
                    &&& a matches CloseProcAction::CreateUnits { units } && units@ == all_units(
                        procurement.items@,
                        procurement.upls@,
                        skus@,
                        prices@,
                        procurement.id,
                        actor,
                    )
                } else {
                    &&& s2 is Failed
                    &&& a matches CloseProcAction::Fail { error } && exists|i: int|
                        0 <= i < procurement.items@.len() && line_error(
                            #[trigger] procurement.items@[i],
                            procurement.upls@,
                            skus@,
                            prices@,
                        ) == Some(error)
                }
            },
            Err(err) => {
                &&& s2 is Failed
                &&& a == (CloseProcAction::Fail { error: CloseError::Remote(err) })
            },
        },
        (CloseProcState::AwaitCreate { procurement_id, submitted, actor }, CloseProcEvent::Created(res)) => match res {
            Ok(created_ids) => {
                if created_ids@.len() < submitted {
                    &&& s2 == (CloseProcState::AwaitAlert { procurement_id, actor })
                    &&& a == (CloseProcAction::SendAlert {
                        procurement_id,
                        submitted,
                        created: created_ids@.len() as usize,
                    })
                } else {
                    &&& s2 is AwaitStatus
                    &&& a == (CloseProcAction::SetStatusClosed { procurement_id, actor })
                }
            },
            Err(err) => {
                &&& s2 is Failed
                &&& a == (CloseProcAction::Fail { error: CloseError::Remote(err) })
            },
        },
        (CloseProcState::AwaitAlert { procurement_id, actor }, CloseProcEvent::AlertSent(_)) => {
            // Best effort: whatever the alert call returned, the close
            // proceeds.
            &&& s2 is AwaitStatus
            &&& a == (CloseProcAction::SetStatusClosed { procurement_id, actor })
        },
        (CloseProcState::AwaitStatus, CloseProcEvent::Closed(res)) => match res {
            Ok(p) => {
                &&& s2 is Done
                &&& a matches CloseProcAction::Succeed { procurement } && procurement == p
            },
            Err(err) => {
                &&& s2 is Failed
                &&& a == (CloseProcAction::Fail { error: CloseError::Remote(err) })
            },
        },
        _ => {
            &&& s2 is Failed
            &&& a == (CloseProcAction::Fail { error: CloseError::Unexpected })
        },
    }
}

fn candidate_ids(upls: &Vec<UplCandidateForm>) -> (r: Vec<String>)
    ensures
        r@ == upls@.map_values(|c: UplCandidateForm| c.upl_id),
{
    let mut r: Vec<String> = Vec::new();
    let mut i: usize = 0;
    while i < upls.len()
        invariant
            i <= upls.len(),
            r@.len() == i,
            forall|j: int| 0 <= j < i ==> r@[j] == #[trigger] upls@[j].upl_id,
        decreases upls.len() - i,
    {
        r.push(upls[i].upl_id.clone());
        i = i + 1;
    }
    proof {
        assert(r@ =~= upls@.map_values(|c: UplCandidateForm| c.upl_id));
    }
    r
}

fn item_skus(items: &Vec<ProcurementItemForm>) -> (r: Vec<u32>)
    ensures
        r@ == items@.map_values(|it: ProcurementItemForm| it.sku),
{
    let mut r: Vec<u32> = Vec::new();
    let mut i: usize = 0;
    while i < items.len()
        invariant
            i <= items.len(),
            r@.len() == i,
            forall|j: int| 0 <= j < i ==> r@[j] == #[trigger] items@[j].sku,
        decreases items.len() - i,
    {
        r.push(items[i].sku);
        i = i + 1;
    }
    proof {
        assert(r@ =~= items@.map_values(|it: ProcurementItemForm| it.sku));
    }
    r
}

fn unit_ids(units: &Vec<Unit>) -> (r: Vec<String>)
    ensures
        r@ == units@.map_values(|u: Unit| u.id),
{
    let mut r: Vec<String> = Vec::new();
    let mut i: usize = 0;
    while i < units.len()
        invariant
            i <= units.len(),
            r@.len() == i,
            forall|j: int| 0 <= j < i ==> r@[j] == #[trigger] units@[j].id,
        decreases units.len() - i,
    {
        r.push(units[i].id.clone());
        i = i + 1;
    }
    proof {
        assert(r@ =~= units@.map_values(|u: Unit| u.id));
    }
    r
}

/// One step of the close workflow.
pub fn close_step(s: CloseProcState, e: CloseProcEvent) -> (r: (
    CloseProcState,
    CloseProcAction,
))
    ensures
        close_trans(s, e, r.0, r.1),
{
    match (s, e) {
        (CloseProcState::Start { procurement_id, actor }, CloseProcEvent::Start) => (
            CloseProcState::AwaitProcurement { actor },
            CloseProcAction::FetchProcurement { procurement_id },
        ),
        (CloseProcState::AwaitProcurement { actor }, CloseProcEvent::Procurement(res)) => match res {
            Ok(p) => {
                if matches!(p.status, StatusForm::Processing) {
                    let upl_ids = candidate_ids(&p.upls);
                    (
                        CloseProcState::AwaitIdCheck { procurement: p, actor },
                        CloseProcAction::CheckUnitIds { upl_ids },
                    )
                } else {
                    (
                        CloseProcState::Failed,
                        CloseProcAction::Fail { error: CloseError::NotProcessing },
                    )
                }
            },
            Err(err) => (
                CloseProcState::Failed,
                CloseProcAction::Fail { error: CloseError::Remote(err) },
            ),
        },
        (CloseProcState::AwaitIdCheck { procurement, actor }, CloseProcEvent::ExistingUnits(res)) => match res {
            Ok(found) => {
                if found.len() > 0 {
                    let ids = unit_ids(&found);
                    (
                        CloseProcState::Failed,
                        CloseProcAction::Fail { error: CloseError::IdCollision(ids) },
                    )
                } else {
                    let sku_ids = item_skus(&procurement.items);
                    (
                        CloseProcState::AwaitSkus { procurement, actor },
                        CloseProcAction::FetchSkus { sku_ids },
                    )
                }
            },
            Err(err) => (
                CloseProcState::Failed,
                CloseProcAction::Fail { error: CloseError::Remote(err) },
            ),
        },
        (CloseProcState::AwaitSkus { procurement, actor }, CloseProcEvent::Skus(res)) => match res {
            Ok(skus) => {
                let sku_ids = item_skus(&procurement.items);
                (
                    CloseProcState::AwaitPrices { procurement, skus, actor },
                    CloseProcAction::FetchPrices { sku_ids },
                )
            },
            Err(err) => (
                CloseProcState::Failed,
                CloseProcAction::Fail { error: CloseError::Remote(err) },
            ),
        },
        (CloseProcState::AwaitPrices { procurement, skus, actor }, CloseProcEvent::Prices(res)) => match res {
            Ok(prices) => match build_unit_candidates(&procurement, &skus, &prices, actor) {
                Ok(units) => {
                    let submitted = units.len();
                    (
                        CloseProcState::AwaitCreate {
                            procurement_id: procurement.id,
                            submitted,
                            actor,
                        },
                        CloseProcAction::CreateUnits { units },
                    )
                },
                Err(error) => (CloseProcState::Failed, CloseProcAction::Fail { error }),
            },
            Err(err) => (
                CloseProcState::Failed,
                CloseProcAction::Fail { error: CloseError::Remote(err) },
            ),
        },
        (CloseProcState::AwaitCreate { procurement_id, submitted, actor }, CloseProcEvent::Created(res)) => match res {
            Ok(created_ids) => {
                if created_ids.len() < submitted {
                    (
                        CloseProcState::AwaitAlert { procurement_id, actor },
                        CloseProcAction::SendAlert {
                            procurement_id,
                            submitted,
                            created: created_ids.len(),
                        },
                    )
                } else {
                    (
                        CloseProcState::AwaitStatus,
                        CloseProcAction::SetStatusClosed { procurement_id, actor },
                    )
                }
            },
            Err(err) => (
                CloseProcState::Failed,
                CloseProcAction::Fail { error: CloseError::Remote(err) },
            ),
        },
        (CloseProcState::AwaitAlert { procurement_id, actor }, CloseProcEvent::AlertSent(_)) => (
            CloseProcState::AwaitStatus,
            CloseProcAction::SetStatusClosed { procurement_id, actor },
        ),
        (CloseProcState::AwaitStatus, CloseProcEvent::Closed(res)) => match res {
            Ok(p) => (CloseProcState::Done, CloseProcAction::Succeed { procurement: p }),
            Err(err) => (
                CloseProcState::Failed,
                CloseProcAction::Fail { error: CloseError::Remote(err) },
            ),
        },
        (_, _) => (CloseProcState::Failed, CloseProcAction::Fail { error: CloseError::Unexpected }),
    }
}

/// The body of the operational alert sent when fewer units come back
/// created than were submitted.
pub fn alert_message(procurement_id: u32, submitted: u64, created: u64) -> (s: String)
    ensures
        s@ == "unit creation incomplete for procurement "@ + crate::text::dec_digits(
            procurement_id as nat,
        ) + ": created "@ + crate::text::dec_digits(created as nat) + " of "@
            + crate::text::dec_digits(submitted as nat),
{
    let mut s = msg_with_id("unit creation incomplete for procurement ", procurement_id);
    s.append(": created ");
    let created_text = crate::text::u64_to_dec(created);
    s.append(created_text.as_str());
    s.append(" of ");
    let submitted_text = crate::text::u64_to_dec(submitted);
    s.append(submitted_text.as_str());
    s
}

/// One performed step of the close workflow, as a driver records it:
/// the event handed in, the state reached, the action asked for.
pub struct CloseStep {
    pub event: CloseProcEvent,
    pub state: CloseProcState,
    pub action: CloseProcAction,
}

/// The state the workflow is in before step `i` of a recorded run.
pub open spec fn close_state_before(s0: CloseProcState, steps: Seq<CloseStep>, i: int) -> CloseProcState {
    if i == 0 {
        s0
    } else {
        steps[i - 1].state
    }
}

/// A recorded run is a chain of transitions from the starting state.
pub open spec fn close_run(s0: CloseProcState, steps: Seq<CloseStep>) -> bool {
    forall|i: int|
        0 <= i < steps.len() ==> close_trans(
            close_state_before(s0, steps, i),
            steps[i].event,
            (#[trigger] steps[i]).state,
            steps[i].action,
        )
}

/// States from which the workflow can no longer reach unit creation.
pub open spec fn close_before_validation(s: CloseProcState) -> bool {
    ||| s is Start
    ||| s is AwaitProcurement
    ||| s is Failed
}

/// A procurement whose status is not Processing is refused at once:
/// the close fails with the not-processing error, whose outward form is
/// a bad request.
pub proof fn lemma_close_requires_processing(
    actor: u32,
    p: ProcurementForm,
    s2: CloseProcState,
    a: CloseProcAction,
)
    requires
        p.status != StatusForm::Processing,
        close_trans(
            CloseProcState::AwaitProcurement { actor },
            CloseProcEvent::Procurement(Ok(p)),
            s2,
            a,
        ),
    ensures
        s2 is Failed,
        a == (CloseProcAction::Fail { error: CloseError::NotProcessing }),
{
}

proof fn lemma_not_processing_run_aux(
    procurement_id: u32,
    actor: u32,
    steps: Seq<CloseStep>,
    n: int,
)
    requires
        close_run(CloseProcState::Start { procurement_id, actor }, steps),
        forall|i: int|
            0 <= i < steps.len() ==> ((#[trigger] steps[i]).event matches
            CloseProcEvent::Procurement(Ok(p)) ==> p.status != StatusForm::Processing),
        0 <= n <= steps.len(),
    ensures
        close_before_validation(
            close_state_before(CloseProcState::Start { procurement_id, actor }, steps, n),
        ),
        forall|i: int| 0 <= i < n ==> !((#[trigger] steps[i]).action is CreateUnits),
    decreases n,
{
    let s0 = CloseProcState::Start { procurement_id, actor };
    if n > 0 {
        lemma_not_processing_run_aux(procurement_id, actor, steps, n - 1);
        let prev = close_state_before(s0, steps, n - 1);
        assert(close_trans(prev, steps[n - 1].event, steps[n - 1].state, steps[n - 1].action));
        match (prev, steps[n - 1].event) {
            (CloseProcState::AwaitProcurement { .. }, CloseProcEvent::Procurement(res)) => {
                match res {
                    Ok(p) => {
                        assert(steps[n - 1].event == CloseProcEvent::Procurement(Ok(p)));
                        assert(p.status != StatusForm::Processing);
                    },
                    Err(_) => {},
                }
            },
            _ => {},
        }
    }
}

/// A close attempt on a procurement whose status is not Processing never
/// asks for unit creation, however the run continues.
pub proof fn lemma_not_processing_creates_no_units(
    procurement_id: u32,
    actor: u32,
    steps: Seq<CloseStep>,
)
    requires
        close_run(CloseProcState::Start { procurement_id, actor }, steps),
        forall|i: int|
            0 <= i < steps.len() ==> ((#[trigger] steps[i]).event matches
            CloseProcEvent::Procurement(Ok(p)) ==> p.status != StatusForm::Processing),
    ensures
        forall|i: int| 0 <= i < steps.len() ==> !((#[trigger] steps[i]).action is CreateUnits),
{
    lemma_not_processing_run_aux(procurement_id, actor, steps, steps.len() as int);
}

/// When validation succeeds, every ordered line's candidate quantities
/// sum exactly to its ordered amount.
pub proof fn lemma_exact_quantities(
    items: Seq<ProcurementItemForm>,
    upls: Seq<UplCandidateForm>,
    skus: Seq<SkuObj>,
    prices: Seq<PriceObject>,
    i: int,
)
    requires
        all_lines_ok(items, upls, skus, prices),
        0 <= i < items.len(),
    ensures
        received_sum(upls, items[i].sku) == items[i].ordered_amount,
{
    assert(line_error(items[i], upls, skus, prices) is None);
}

/// A line whose candidate quantities do not sum to its ordered amount —
/// off by one in either direction or worse — refuses the close.
pub proof fn lemma_quantity_mismatch_refused(
    items: Seq<ProcurementItemForm>,
    upls: Seq<UplCandidateForm>,
    skus: Seq<SkuObj>,
    prices: Seq<PriceObject>,
    i: int,
)
    requires
        0 <= i < items.len(),
        received_sum(upls, items[i].sku) != items[i].ordered_amount,
    ensures
        !all_lines_ok(items, upls, skus, prices),
        line_error(items[i], upls, skus, prices) is Some,
        (spec_find_sku(skus, items[i].sku) is Some && spec_find_price(prices, items[i].sku) is Some
            && (spec_find_sku(skus, items[i].sku)->Some_0.perishable ==> perishable_ok(
            upls,
            items[i].sku,
        ))) ==> line_error(items[i], upls, skus, prices) == Some(
            CloseError::AmountMismatch(items[i].sku),
        ),
{
    assert(line_error(items[i], upls, skus, prices) is Some);
}

/// For a perishable catalog code, one candidate without a best-before
/// date refuses the close, and the refusal names that catalog code.
pub proof fn lemma_perishable_needs_best_before(
    items: Seq<ProcurementItemForm>,
    upls: Seq<UplCandidateForm>,
    skus: Seq<SkuObj>,
    prices: Seq<PriceObject>,
    i: int,
    j: int,
)
    requires
        0 <= i < items.len(),
        spec_find_sku(skus, items[i].sku) matches Some(so) && so.perishable,
        spec_find_price(prices, items[i].sku) is Some,
        0 <= j < upls.len(),
        upls[j].sku == items[i].sku,
        upls[j].best_before@.len() == 0,
    ensures
        line_error(items[i], upls, skus, prices) == Some(
            CloseError::MissingBestBefore(items[i].sku),
        ),
        !all_lines_ok(items, upls, skus, prices),
{
    assert(!perishable_ok(upls, items[i].sku));
}

} // verus!
