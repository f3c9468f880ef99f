//! What a client sends about goods, and what makes it acceptable.

use vstd::prelude::*;
use vstd::string::*;

verus! {

/// One record to insert.
#[derive(Debug)]
pub struct InsertBarangSchema {
    pub name: String,
    pub price: i32,
    pub stock: i32,
    pub expired_at: Option<String>,
}

/// A filter on the name.
#[derive(Debug)]
pub struct GetBarangSchema {
    pub name: Option<String>,
}

/// Records to insert together.
#[derive(Debug)]
pub struct SyncBarangSchema {
    pub barang: Vec<InsertBarangSchema>,
}

/// What is wrong with a record.
#[derive(Clone, Copy, Debug, PartialEq, Eq, Structural)]
pub enum BarangFault {
    /// The name is empty.
    NameRequired,
    /// The price is below zero.
    NegativePrice,
    /// The stock is below zero.
    NegativeStock,
}

impl BarangFault {
    /// The words that report the fault.
    pub open spec fn text(self) -> Seq<char> {
        match self {
            BarangFault::NameRequired => "Name is required"@,
            BarangFault::NegativePrice => "price must not be below zero"@,
            BarangFault::NegativeStock => "stock must not be below zero"@,
        }
    }

    /// The words that report the fault.
    pub fn message(&self) -> (text: &'static str)
        ensures
            text@ == self.text(),
    {
        match self {
            BarangFault::NameRequired => "Name is required",
            BarangFault::NegativePrice => "price must not be below zero",
            BarangFault::NegativeStock => "stock must not be below zero",
        }
    }
}

/// The first thing wrong with a record, in the order of its fields.
pub open spec fn fault_of(record: InsertBarangSchema) -> Option<BarangFault> {
    if record.name@.len() == 0 {
        Some(BarangFault::NameRequired)
    } else if record.price < 0 {
        Some(BarangFault::NegativePrice)
    } else if record.stock < 0 {
        Some(BarangFault::NegativeStock)
    } else {
        None
    }
}

impl InsertBarangSchema {
    /// Accepts a record with a name and with neither price nor stock below
    /// zero.
    pub fn validate(&self) -> (outcome: Result<(), BarangFault>)
        ensures
            outcome == match fault_of(*self) {
                Some(fault) => Err::<(), BarangFault>(fault),
                None => Ok::<(), BarangFault>(()),
            },
    {
        if self.name.as_str().is_empty() {
            Err(BarangFault::NameRequired)
        } else if self.price < 0 {
            Err(BarangFault::NegativePrice)
        } else if self.stock < 0 {
            Err(BarangFault::NegativeStock)
        } else {
            Ok(())
        }
    }
}

/// The faults of the records that have one, each with the position of its
/// record, in order.
pub open spec fn faults_of(records: Seq<InsertBarangSchema>) -> Seq<(usize, BarangFault)>
    decreases records.len(),
{
    if records.len() == 0 {
        Seq::empty()
    } else {
        let before = faults_of(records.drop_last());
        match fault_of(records.last()) {
            Some(fault) => before.push(((records.len() - 1) as usize, fault)),
            None => before,
        }
    }
}

impl SyncBarangSchema {
    /// Checks every record. The records are acceptable together exactly
    /// when the list that comes back is empty.
    pub fn validate(&self) -> (faults: Vec<(usize, BarangFault)>)
        ensures
            faults@ == faults_of(self.barang@),
    {
        let mut faults: Vec<(usize, BarangFault)> = Vec::new();
        let mut i: usize = 0;
        while i < self.barang.len()
            invariant
                i <= self.barang.len(),
                faults@ == faults_of(self.barang@.take(i as int)),
            decreases self.barang.len() - i,
        {
            assert(self.barang@.take(i + 1).drop_last() =~= self.barang@.take(i as int));
            if let Err(fault) = self.barang[i].validate() {
                faults.push((i, fault));
            }
            i = i + 1;
        }
        assert(self.barang@.take(i as int) =~= self.barang@);
        faults
    }
}

/// No fault is reported exactly when every record is acceptable.
pub proof fn law_no_fault_means_all_acceptable(records: Seq<InsertBarangSchema>)
    ensures
        faults_of(records).len() == 0 <==> forall|i: int|
            0 <= i < records.len() ==> fault_of(#[trigger] records[i]) is None,
    decreases records.len(),
{
    if records.len() > 0 {
        let before = records.drop_last();
        law_no_fault_means_all_acceptable(before);
        if faults_of(records).len() == 0 {
            assert forall|i: int| 0 <= i < records.len() implies fault_of(
                #[trigger] records[i],
            ) is None by {
                if i < before.len() {
                    assert(before[i] == records[i]);
                }
            }
        } else if fault_of(records.last()) is None {
            let k = choose|k: int| 0 <= k < before.len() && !(fault_of(#[trigger] before[k]) is None);
            assert(before[k] == records[k]);
        }
    }
}

} // verus!
