//! The procurement: an inbound order of catalog items from a source,
//! reconciled into inventory units upon receipt. Its status walks the
//! state machine New -> Ordered -> Arrived -> Processing -> Closed,
//! strictly forward.

use vstd::prelude::*;

use crate::error::ApiError;

verus! {

/// Status of a procurement.
#[derive(Debug, Clone, Copy, PartialEq, Eq, Structural)]
pub enum StatusForm {
    New,
    Ordered,
    Arrived,
    Processing,
    Closed,
}

/// An ordered line item of a procurement.
#[derive(Debug, Clone, Copy, PartialEq, Eq, Structural)]
pub struct ProcurementItemForm {
    pub sku: u32,
    pub ordered_amount: u32,
    pub expected_net_price: u32,
}

/// A received-unit candidate collected on a procurement: the unit it will
/// become, its catalog code, its piece count (or openedness) and its
/// best-before date.
#[derive(Debug)]
pub struct UplCandidateForm {
    pub upl_id: String,
    pub sku: u32,
    pub upl_piece: u32,
    pub opened_sku: bool,
    pub best_before: String,
}

impl Clone for UplCandidateForm {
    fn clone(&self) -> (res: Self)
        ensures
            res == *self,
    {
        UplCandidateForm {
            upl_id: self.upl_id.clone(),
            sku: self.sku,
            upl_piece: self.upl_piece,
            opened_sku: self.opened_sku,
            best_before: self.best_before.clone(),
        }
    }
}

/// The procurement aggregate as the procurement service hands it over;
/// the status arrives as a raw integer code.
#[derive(Debug, Clone)]
pub struct ProcurementObj {
    pub id: u32,
    pub source_id: u32,
    pub reference: String,
    pub estimated_delivery_date: String,
    pub items: Vec<ProcurementItemForm>,
    pub upls: Vec<UplCandidateForm>,
    pub status: i32,
    pub created_at: String,
    pub created_by: u32,
}

/// The procurement as it is reported outward.
#[derive(Debug, Clone)]
pub struct ProcurementForm {
    pub id: u32,
    pub source_id: u32,
    pub reference: String,
    pub estimated_delivery_date: String,
    pub items: Vec<ProcurementItemForm>,
    pub upls: Vec<UplCandidateForm>,
    pub status: StatusForm,
    pub created_at: String,
    pub created_by: u32,
}

/// The status a raw wire code stands for.
pub open spec fn spec_status(k: int) -> Option<StatusForm> {
    if k == 0 {
        Some(StatusForm::New)
    } else if k == 1 {
        Some(StatusForm::Ordered)
    } else if k == 2 {
        Some(StatusForm::Arrived)
    } else if k == 3 {
        Some(StatusForm::Processing)
    } else if k == 4 {
        Some(StatusForm::Closed)
    } else {
        None
    }
}

/// Decodes a raw status code; an unknown code marks a corrupted upstream
/// record.
pub fn status_from_code(k: i32) -> (r: Result<StatusForm, ApiError>)
    ensures
        match r {
            Ok(s) => spec_status(k as int) == Some(s),
            Err(e) => spec_status(k as int) is None && e is InternalError,
        },
{
    if k == 0 {
        Ok(StatusForm::New)
    } else if k == 1 {
        Ok(StatusForm::Ordered)
    } else if k == 2 {
        Ok(StatusForm::Arrived)
    } else if k == 3 {
        Ok(StatusForm::Processing)
    } else if k == 4 {
        Ok(StatusForm::Closed)
    } else {
        Err(ApiError::internal_error("procurement record has an unknown status code"))
    }
}

/// The raw wire code of a status.
pub fn status_to_code(s: StatusForm) -> (r: i32)
    ensures
        spec_status(r as int) == Some(s),
{
    match s {
        StatusForm::New => 0,
        StatusForm::Ordered => 1,
        StatusForm::Arrived => 2,
        StatusForm::Processing => 3,
        StatusForm::Closed => 4,
    }
}

fn clone_items(v: &Vec<ProcurementItemForm>) -> (r: Vec<ProcurementItemForm>)
    ensures
        r@ == v@,
{
    let mut r: Vec<ProcurementItemForm> = Vec::new();
    let mut i: usize = 0;
    while i < v.len()
        invariant
            i <= v.len(),
            r@ =~= v@.subrange(0, i as int),
        decreases v.len() - i,
    {
        r.push(v[i]);
        i = i + 1;
    }
    proof {
        assert(r@ =~= v@);
    }
    r
}

/// Clones the candidate list element by element.
pub fn clone_candidates(v: &Vec<UplCandidateForm>) -> (r: Vec<UplCandidateForm>)
    ensures
        r@ == v@,
{
    let mut r: Vec<UplCandidateForm> = Vec::new();
    let mut i: usize = 0;
    while i < v.len()
        invariant
            i <= v.len(),
            r@ =~= v@.subrange(0, i as int),
        decreases v.len() - i,
    {
        r.push(v[i].clone());
        i = i + 1;
    }
    proof {
        assert(r@ =~= v@);
    }
    r
}

/// How the reported procurement relates to the wire aggregate.
pub open spec fn procurement_form_of(p: ProcurementObj, f: ProcurementForm) -> bool {
    &&& f.id == p.id
    &&& f.source_id == p.source_id
    &&& f.reference == p.reference
    &&& f.estimated_delivery_date == p.estimated_delivery_date
    &&& f.items@ == p.items@
    &&& f.upls@ == p.upls@
    &&& Some(f.status) == spec_status(p.status as int)
    &&& f.created_at == p.created_at
    &&& f.created_by == p.created_by
}

impl ProcurementForm {
    /// Builds the reported procurement from the wire aggregate. Fails with
    /// an internal error exactly when the status code is unknown.
    pub fn from_procurement_obj(p: &ProcurementObj) -> (r: Result<ProcurementForm, ApiError>)
        ensures
            r is Ok <==> spec_status(p.status as int) is Some,
            r matches Ok(f) ==> procurement_form_of(*p, f),
            r matches Err(e) ==> e is InternalError,
    {
        let status = match status_from_code(p.status) {
            Ok(s) => s,
            Err(e) => {
                return Err(e);
            },
        };
        Ok(ProcurementForm {
            id: p.id,
            source_id: p.source_id,
            reference: p.reference.clone(),
            estimated_delivery_date: p.estimated_delivery_date.clone(),
            items: clone_items(&p.items),
            upls: clone_candidates(&p.upls),
            status,
            created_at: p.created_at.clone(),
            created_by: p.created_by,
        })
    }
}

/// Procurement list entry as shown in an overview.
#[derive(Debug, Clone)]
pub struct ProcurementInfoForm {
    pub id: u32,
    pub source_id: u32,
    pub sku_count: u32,
    pub sku_piece_count: u32,
    pub upl_count: u32,
    pub estimated_delivery_date: String,
    pub status: StatusForm,
    pub created_at: String,
    pub created_by: u32,
}

/// Procurement list entry as the procurement service hands it over; the
/// status arrives as a raw integer code.
#[derive(Debug, Clone)]
pub struct ProcurementInfoObj {
    pub id: u32,
    pub source_id: u32,
    pub sku_count: u32,
    pub sku_piece_count: u32,
    pub upl_count: u32,
    pub estimated_delivery_date: String,
    pub status: i32,
    pub created_at: String,
    pub created_by: u32,
}

impl ProcurementInfoForm {
    /// Builds the reported list entry from the wire record. Fails with an
    /// internal error exactly when the status code is unknown.
    pub fn from_info_obj(p: &ProcurementInfoObj) -> (r: Result<ProcurementInfoForm, ApiError>)
        ensures
            r is Ok <==> spec_status(p.status as int) is Some,
            r matches Ok(f) ==> {
                &&& f.id == p.id
                &&& f.source_id == p.source_id
                &&& f.sku_count == p.sku_count
                &&& f.sku_piece_count == p.sku_piece_count
                &&& f.upl_count == p.upl_count
                &&& f.estimated_delivery_date == p.estimated_delivery_date
                &&& Some(f.status) == spec_status(p.status as int)
                &&& f.created_at == p.created_at
                &&& f.created_by == p.created_by
            },
            r matches Err(e) ==> e is InternalError,
    {
        let status = match status_from_code(p.status) {
            Ok(s) => s,
            Err(e) => {
                return Err(e);
            },
        };
        Ok(ProcurementInfoForm {
            id: p.id,
            source_id: p.source_id,
            sku_count: p.sku_count,
            sku_piece_count: p.sku_piece_count,
            upl_count: p.upl_count,
            estimated_delivery_date: p.estimated_delivery_date.clone(),
            status,
            created_at: p.created_at.clone(),
            created_by: p.created_by,
        })
    }
}

// Request bodies of the procurement endpoints.

#[derive(Debug, Clone)]
pub struct NewProcurementForm {
    pub source_id: u32,
}

#[derive(Debug, Clone)]
pub struct RemoveUplForm {
    pub procurement_id: u32,
    pub upl_id: String,
}

#[derive(Debug, Clone)]
pub struct UpdateUplForm {
    pub procurement_id: u32,
    pub upl_id: String,
    pub sku: u32,
    pub piece: u32,
    pub best_before: String,
}

#[derive(Debug)]
pub struct AddUplForm {
    pub procurement_id: u32,
    pub upl_candidate: UplCandidateForm,
}

#[derive(Debug, Clone)]
pub struct SetSkuPriceForm {
    pub procurement_id: u32,
    pub sku: u32,
    pub expected_net_price: u32,
}

#[derive(Debug, Clone)]
pub struct SetSkuPieceForm {
    pub procurement_id: u32,
    pub sku: u32,
    pub piece: u32,
}

#[derive(Debug, Clone)]
pub struct RemoveSkuForm {
    pub procurement_id: u32,
    pub sku: u32,
}

#[derive(Debug)]
pub struct AddSkuForm {
    pub procurement_id: u32,
    pub sku: ProcurementItemForm,
}

#[derive(Debug, Clone)]
pub struct SetReferenceForm {
    pub procurement_id: u32,
    pub reference: String,
}

#[derive(Debug, Clone)]
pub struct SetDeliveryDateForm {
    pub procurement_id: u32,
    pub delivery_date: String,
}

#[derive(Debug, Clone)]
pub struct RemoveForm {
    pub procurement_id: u32,
}

} // verus!
