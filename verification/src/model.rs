//! What the backing services promise for the calls the coordinators
//! make, and the cross-call laws the coordinators maintain through call
//! ordering alone: attach to the cart, then lock the unit; release the
//! lock, then detach. No shared transaction backs these invariants.

use vstd::prelude::*;

use crate::attachment::{
    attach_trans, detach_guard, detach_trans, AttachAction, AttachError, AttachEvent, AttachState,
};
use crate::cart::{CartForm, UplInfoForm};
use crate::error::ApiError;
use crate::upl::{Unit, UnitKind, UnitLock};

verus! {

/// The unit after the inventory-unit service locked it to a cart.
pub open spec fn unit_locked_to_cart(u: Unit, cart_id: String) -> Unit {
    Unit { lock: Some(UnitLock::CartLock(cart_id)), ..u }
}

/// The unit after the inventory-unit service released its lock.
pub open spec fn unit_lock_released(u: Unit) -> Unit {
    Unit { lock: Some(UnitLock::NoLock), ..u }
}

/// A cart line group after the purchase service detached a unit: every
/// line of that unit is gone, the others keep their order.
pub open spec fn lines_without_unit(lines: Seq<UplInfoForm>, upl_id: Seq<char>) -> Seq<
    UplInfoForm,
> {
    lines.filter(|l: UplInfoForm| l.upl_id@ != upl_id)
}

/// No line of the group belongs to the unit.
pub open spec fn no_line_for(lines: Seq<UplInfoForm>, upl_id: Seq<char>) -> bool {
    forall|i: int| 0 <= i < lines.len() ==> (#[trigger] lines[i]).upl_id@ != upl_id
}

/// Detaching a unit that no line mentions leaves the group unchanged.
pub proof fn lemma_detach_leaves_others(lines: Seq<UplInfoForm>, upl_id: Seq<char>)
    requires
        no_line_for(lines, upl_id),
    ensures
        lines_without_unit(lines, upl_id) == lines,
    decreases lines.len(),
{
    reveal(Seq::filter);
    if lines.len() == 0 {
        assert(lines_without_unit(lines, upl_id) =~= lines);
    } else {
        lemma_detach_leaves_others(lines.drop_last(), upl_id);
        assert(lines.last().upl_id@ != upl_id);
        assert(lines_without_unit(lines, upl_id) =~= lines);
    }
}

/// Detaching a unit right after attaching its line restores the group:
/// what the compensating detach relies on, and one half of the
/// attach-then-detach round trip.
pub proof fn lemma_detach_undoes_attach(lines: Seq<UplInfoForm>, line: UplInfoForm)
    requires
        no_line_for(lines, line.upl_id@),
    ensures
        lines_without_unit(lines.push(line), line.upl_id@) == lines,
{
    reveal(Seq::filter);
    lemma_detach_leaves_others(lines, line.upl_id@);
    assert(lines.push(line).drop_last() =~= lines);
    assert(lines.push(line).last() == line);
    assert(lines_without_unit(lines.push(line), line.upl_id@) =~= lines);
}

/// The attach-then-detach round trip. After a successful attach of unit
/// `u` to cart `cart_id` (its line pushed onto a group that did not hold
/// it, its lock set to that cart), a detach of the same unit from the
/// same cart is accepted, returns the unit's lock to none, and removes
/// the unit from the cart's line items, leaving the group as it was.
pub proof fn lemma_attach_detach_round_trip(
    u: Unit,
    cart_id: String,
    lines: Seq<UplInfoForm>,
    line: UplInfoForm,
)
    requires
        line.upl_id@ == u.id@,
        no_line_for(lines, u.id@),
    ensures
        detach_guard(unit_locked_to_cart(u, cart_id), cart_id@) is None,
        unit_lock_released(unit_locked_to_cart(u, cart_id)).lock == Some(UnitLock::NoLock),
        lines_without_unit(lines.push(line), u.id@) == lines,
{
    lemma_detach_undoes_attach(lines, line);
}

/// After a successful attach of unit `u` to cart `cart_id`, the detach
/// workflow accepts that unit and asks first for the lock release, then
/// for the detach — never the other way round.
pub proof fn lemma_detach_accepts_attached_unit(
    u: Unit,
    cart_id: String,
    fetch_cart_id: String,
    actor: u32,
    s2: crate::attachment::DetachState,
    a: crate::attachment::DetachAction,
)
    requires
        fetch_cart_id@ == cart_id@,
        detach_trans(
            crate::attachment::DetachState::AwaitUnit { cart_id: fetch_cart_id, actor },
            crate::attachment::DetachEvent::Unit(Ok(unit_locked_to_cart(u, cart_id))),
            s2,
            a,
        ),
    ensures
        s2 matches crate::attachment::DetachState::AwaitRelease { unit_id, .. } && unit_id@
            == u.id@,
        a matches crate::attachment::DetachAction::ReleaseLock { upl_id, cart_id: c2, actor: a2 }
            && upl_id@ == u.id@ && c2@ == cart_id@ && a2 == actor,
{
}

/// When the lock step fails after a successful cart attach, the workflow
/// asks for the compensating detach of exactly that unit from exactly
/// that cart, and the failure it then reports is the lock failure.
pub proof fn lemma_lock_failure_compensates(
    cart: CartForm,
    unit_id: String,
    cart_id: String,
    err: ApiError,
    s2: AttachState,
    a: AttachAction,
)
    requires
        attach_trans(
            AttachState::AwaitLock { cart, unit_id, cart_id },
            AttachEvent::Locked(Err(err)),
            s2,
            a,
        ),
    ensures
        s2 == (AttachState::AwaitCompensation { lock_error: err }),
        a matches AttachAction::DetachFromCart { cart_id: c2, upl_id } && c2@ == cart_id@
            && upl_id@ == unit_id@,
{
}

/// An action that changes remote state, as opposed to a read or a final
/// outcome.
pub open spec fn attach_is_write(a: AttachAction) -> bool {
    ||| a is AttachToCart
    ||| a is LockToCart
    ||| a is DetachFromCart
}

/// A fraction unit: an opened unit or a fraction derived from one.
pub open spec fn is_fraction_unit(u: Unit) -> bool {
    ||| u.kind matches Some(UnitKind::OpenedSku { .. })
    ||| u.kind matches Some(UnitKind::DerivedProduct { .. })
}

/// One performed step of the attach workflow, as a driver records it.
pub struct AttachStep {
    pub event: AttachEvent,
    pub state: AttachState,
    pub action: AttachAction,
}

/// The state the workflow is in before step `i` of a recorded run.
pub open spec fn attach_state_before(s0: AttachState, steps: Seq<AttachStep>, i: int) -> AttachState {
    if i == 0 {
        s0
    } else {
        steps[i - 1].state
    }
}

/// A recorded run is a chain of transitions from the starting state.
pub open spec fn attach_run(s0: AttachState, steps: Seq<AttachStep>) -> bool {
    forall|i: int|
        0 <= i < steps.len() ==> attach_trans(
            attach_state_before(s0, steps, i),
            steps[i].event,
            (#[trigger] steps[i]).state,
            steps[i].action,
        )
}

/// States a run can visit while the unit in hand is a fraction unit and
/// every pricing answer reports a zero divisible base: the workflow
/// never passes its derivation step.
pub open spec fn before_derivation(s: AttachState) -> bool {
    match s {
        AttachState::Start { .. } => true,
        AttachState::AwaitUnit { .. } => true,
        AttachState::AwaitCart { unit, .. } => is_fraction_unit(unit),
        AttachState::AwaitParent { unit, .. } => is_fraction_unit(unit),
        AttachState::AwaitPricing { unit, .. } => is_fraction_unit(unit),
        AttachState::Failed => true,
        _ => false,
    }
}

proof fn lemma_zero_base_run_aux(s0: AttachState, steps: Seq<AttachStep>, n: int)
    requires
        s0 matches AttachState::Start { .. },
        attach_run(s0, steps),
        forall|i: int|
            0 <= i < steps.len() ==> ((#[trigger] steps[i]).event matches AttachEvent::Unit(
                Ok(u),
            ) ==> is_fraction_unit(u)),
        forall|i: int|
            0 <= i < steps.len() ==> ((#[trigger] steps[i]).event matches AttachEvent::Pricing(
                Ok(pr),
            ) ==> pr.catalog.divisible_amount == 0),
        0 <= n <= steps.len(),
    ensures
        before_derivation(attach_state_before(s0, steps, n)),
        forall|i: int| 0 <= i < n ==> !attach_is_write((#[trigger] steps[i]).action),
    decreases n,
{
    if n > 0 {
        lemma_zero_base_run_aux(s0, steps, n - 1);
        let prev = attach_state_before(s0, steps, n - 1);
        assert(attach_trans(prev, steps[n - 1].event, steps[n - 1].state, steps[n - 1].action));
        match (prev, steps[n - 1].event) {
            (AttachState::AwaitUnit { .. }, AttachEvent::Unit(res)) => match res {
                Ok(u) => {
                    assert(steps[n - 1].event matches AttachEvent::Unit(Ok(u2)) && u2 == u);
                    assert(is_fraction_unit(u));
                },
                Err(_) => {},
            },
            (AttachState::AwaitPricing { .. }, AttachEvent::Pricing(res)) => match res {
                Ok(pr) => {
                    assert(steps[n - 1].event matches AttachEvent::Pricing(Ok(p2)) && p2 == pr);
                    assert(pr.catalog.divisible_amount == 0);
                },
                Err(_) => {},
            },
            _ => {},
        }
    }
}

/// A fraction unit whose catalog entry reports a zero divisible base is
/// refused before any remote write: however the run continues, no attach,
/// lock or detach is ever asked for.
pub proof fn lemma_zero_base_writes_nothing(s0: AttachState, steps: Seq<AttachStep>)
    requires
        s0 matches AttachState::Start { .. },
        attach_run(s0, steps),
        forall|i: int|
            0 <= i < steps.len() ==> ((#[trigger] steps[i]).event matches AttachEvent::Unit(
                Ok(u),
            ) ==> is_fraction_unit(u)),
        forall|i: int|
            0 <= i < steps.len() ==> ((#[trigger] steps[i]).event matches AttachEvent::Pricing(
                Ok(pr),
            ) ==> pr.catalog.divisible_amount == 0),
    ensures
        forall|i: int| 0 <= i < steps.len() ==> !attach_is_write((#[trigger] steps[i]).action),
{
    lemma_zero_base_run_aux(s0, steps, steps.len() as int);
}

/// A fraction unit priced against a zero divisible base fails with the
/// zero-base refusal (a bad request) whenever its parent linkage is
/// sound — for an opened unit always, for a derived fraction when its
/// resolved parent is an opened unit.
pub proof fn lemma_zero_base_refused(
    unit: Unit,
    parent: Option<Unit>,
    cart: crate::cart::CartObj,
    actor: u32,
    pr: crate::attachment::PricingInfo,
    s2: AttachState,
    a: AttachAction,
)
    requires
        attach_trans(
            AttachState::AwaitPricing { unit, parent, cart, actor },
            AttachEvent::Pricing(Ok(pr)),
            s2,
            a,
        ),
        is_fraction_unit(unit),
        unit.kind matches Some(UnitKind::DerivedProduct { .. }) ==> crate::attachment::parent_is_opened(parent),
        pr.catalog.divisible_amount == 0,
    ensures
        s2 is Failed,
        a == (AttachAction::Fail { error: AttachError::ZeroDivisibleBase }),
{
}

} // verus!
