//! Catalog and pricing records, as the product and pricing services hand
//! them over.

use vstd::prelude::*;

verus! {

/// A sellable product variant: display data, divisibility and the
/// perishable flag.
#[derive(Debug)]
pub struct SkuObj {
    pub sku: u32,
    pub product_id: u32,
    pub display_name: String,
    pub subname: String,
    pub unit: String,
    pub divisible_amount: u32,
    pub can_divide: bool,
    pub perishable: bool,
}

impl Clone for SkuObj {
    fn clone(&self) -> (res: Self)
        ensures
            res == *self,
    {
        SkuObj {
            sku: self.sku,
            product_id: self.product_id,
            display_name: self.display_name.clone(),
            subname: self.subname.clone(),
            unit: self.unit.clone(),
            divisible_amount: self.divisible_amount,
            can_divide: self.can_divide,
            perishable: self.perishable,
        }
    }
}

/// The retail price of a catalog code.
#[derive(Debug)]
pub struct PriceObject {
    pub sku: u32,
    pub price_net_retail: u32,
    pub vat: String,
    pub price_gross_retail: u32,
}

impl Clone for PriceObject {
    fn clone(&self) -> (res: Self)
        ensures
            res == *self,
    {
        PriceObject {
            sku: self.sku,
            price_net_retail: self.price_net_retail,
            vat: self.vat.clone(),
            price_gross_retail: self.price_gross_retail,
        }
    }
}

} // verus!
