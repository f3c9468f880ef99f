//! Goods as the database keeps them.

use vstd::prelude::*;

verus! {

/// A record of goods.
#[derive(Debug)]
pub struct BarangModel {
    pub id: String,
    pub name: String,
    pub price: i32,
    pub stock: i32,
    /// The day of expiry, counted in days of the common era.
    pub expired_at: Option<i32>,
    /// Seconds since the epoch.
    pub created_at: Option<i64>,
    /// Seconds since the epoch.
    pub updated_at: Option<i64>,
}

} // verus!
