//! The columnar batch model: an ordered field schema with one typed array
//! per field, all of one length (the row count).
//!
//! A lookup by name and expected physical type yields the column's array,
//! or nothing when the name is absent or the physical type differs —
//! callers treat a missing column as "leave the field at its default",
//! never as an error.

use vstd::prelude::*;
use vstd::string::StringExecFns;

verus! {

/// One column's array in one of the four physical types used by the
/// domain entities: nullable 64-bit words, bytes, booleans and binary
/// cells. A null cell leaves the consuming record field at its default.
#[derive(Debug)]
pub enum ColumnData {
    U64(Vec<Option<u64>>),
    U8(Vec<Option<u8>>),
    Boolean(Vec<Option<bool>>),
    Binary(Vec<Option<Vec<u8>>>),
}

impl ColumnData {
    /// The number of rows the array holds.
    pub open spec fn spec_len(&self) -> nat {
        match self {
            ColumnData::U64(v) => v@.len(),
            ColumnData::U8(v) => v@.len(),
            ColumnData::Boolean(v) => v@.len(),
            ColumnData::Binary(v) => v@.len(),
        }
    }
}

/// A named column.
#[derive(Debug)]
pub struct Column {
    pub name: String,
    pub data: ColumnData,
}

/// An ordered schema of named columns with a common row count.
#[derive(Debug)]
pub struct ColumnarBatch {
    pub columns: Vec<Column>,
    pub row_count: usize,
}

/// The first column of the given name, if any.
pub open spec fn spec_lookup_from(cols: Seq<Column>, name: Seq<char>) -> Option<ColumnData>
    decreases cols.len(),
{
    if cols.len() == 0 {
        None
    } else if cols[0].name@ == name {
        Some(cols[0].data)
    } else {
        spec_lookup_from(cols.skip(1), name)
    }
}

/// In a well-formed batch, whatever column a lookup finds has the batch's
/// row count.
pub proof fn lemma_lookup_wf(cols: Seq<Column>, name: Seq<char>, n: nat)
    requires
        forall|i: int| 0 <= i < cols.len() ==> (#[trigger] cols[i].data).spec_len() == n,
    ensures
        match spec_lookup_from(cols, name) {
            Some(d) => d.spec_len() == n,
            None => true,
        },
    decreases cols.len(),
{
    if cols.len() > 0 && !(cols[0].name@ == name) {
        assert(forall|i: int|
            0 <= i < cols.skip(1).len() ==> (#[trigger] cols.skip(1)[i].data).spec_len() == n);
        lemma_lookup_wf(cols.skip(1), name, n);
    }
}

impl ColumnarBatch {
    /// Every column's array is exactly `row_count` elements long.
    pub open spec fn wf(&self) -> bool {
        forall|i: int|
            0 <= i < self.columns@.len() ==> (#[trigger] self.columns@[i].data).spec_len()
                == self.row_count
    }

    /// The first column of the given name, if any.
    pub open spec fn spec_lookup(&self, name: Seq<char>) -> Option<ColumnData> {
        spec_lookup_from(self.columns@, name)
    }

    /// The named column as a nullable 64-bit array, if it is present
    /// with that physical type.
    pub open spec fn u64_col(&self, name: Seq<char>) -> Option<Seq<Option<u64>>> {
        match self.spec_lookup(name) {
            Some(ColumnData::U64(v)) => Some(v@),
            _ => None,
        }
    }

    /// The named column as a nullable byte array, if present with that
    /// physical type.
    pub open spec fn u8_col(&self, name: Seq<char>) -> Option<Seq<Option<u8>>> {
        match self.spec_lookup(name) {
            Some(ColumnData::U8(v)) => Some(v@),
            _ => None,
        }
    }

    /// The named column as a nullable boolean array, if present with that
    /// physical type.
    pub open spec fn bool_col(&self, name: Seq<char>) -> Option<Seq<Option<bool>>> {
        match self.spec_lookup(name) {
            Some(ColumnData::Boolean(v)) => Some(v@),
            _ => None,
        }
    }

    /// The named column as a nullable binary array, if present with that
    /// physical type.
    pub open spec fn bin_col(&self, name: Seq<char>) -> Option<Seq<Option<Vec<u8>>>> {
        match self.spec_lookup(name) {
            Some(ColumnData::Binary(v)) => Some(v@),
            _ => None,
        }
    }

    /// Checks well-formedness at run time, so that an unverified caller
    /// can establish it before materializing.
    pub fn check_wf(&self) -> (r: bool)
        ensures
            r == self.wf(),
    {
        let n = self.columns.len();
        let mut i: usize = 0;
        let mut ok = true;
        while i < n
            invariant
                i <= n,
                n == self.columns@.len(),
                ok == (forall|j: int|
                    0 <= j < i ==> (#[trigger] self.columns@[j].data).spec_len()
                        == self.row_count),
            decreases n - i,
        {
            let rows = match &self.columns[i].data {
                ColumnData::U64(v) => v.len(),
                ColumnData::U8(v) => v.len(),
                ColumnData::Boolean(v) => v.len(),
                ColumnData::Binary(v) => v.len(),
            };
            if rows != self.row_count {
                ok = false;
            }
            i = i + 1;
        }
        ok
    }

    /// Looks up the first column of the given name. Returns nothing when
    /// no column carries the name.
    pub fn column(&self, name: &str) -> (r: Option<&ColumnData>)
        ensures
            r matches Some(c) ==> self.spec_lookup(name@) == Some(*c),
            r is None ==> self.spec_lookup(name@) is None,
    {
        let key = String::from_str(name);
        let n = self.columns.len();
        let mut j: usize = 0;
        proof {
            assert(self.columns@.skip(0) =~= self.columns@);
        }
        while j < n
            invariant
                j <= n,
                n == self.columns@.len(),
                key@ == name@,
                spec_lookup_from(self.columns@, name@) == spec_lookup_from(
                    self.columns@.skip(j as int),
                    name@,
                ),
            decreases n - j,
        {
            proof {
                assert(self.columns@.skip(j as int)[0] == self.columns@[j as int]);
                assert(self.columns@.skip(j as int).skip(1) =~= self.columns@.skip(j + 1 as int));
            }
            if self.columns[j].name == key {
                return Some(&self.columns[j].data);
            }
            j = j + 1;
        }
        None
    }

    /// The named column's nullable 64-bit array, if present with that
    /// type.
    pub fn u64_column(&self, name: &str) -> (r: Option<&Vec<Option<u64>>>)
        ensures
            r matches Some(v) ==> self.u64_col(name@) == Some(v@),
            r is None ==> self.u64_col(name@) is None,
    {
        match self.column(name) {
            Some(ColumnData::U64(v)) => Some(v),
            _ => None,
        }
    }

    /// The named column's nullable byte array, if present with that type.
    pub fn u8_column(&self, name: &str) -> (r: Option<&Vec<Option<u8>>>)
        ensures
            r matches Some(v) ==> self.u8_col(name@) == Some(v@),
            r is None ==> self.u8_col(name@) is None,
    {
        match self.column(name) {
            Some(ColumnData::U8(v)) => Some(v),
            _ => None,
        }
    }

    /// The named column's nullable boolean array, if present with that
    /// type.
    pub fn bool_column(&self, name: &str) -> (r: Option<&Vec<Option<bool>>>)
        ensures
            r matches Some(v) ==> self.bool_col(name@) == Some(v@),
            r is None ==> self.bool_col(name@) is None,
    {
        match self.column(name) {
            Some(ColumnData::Boolean(v)) => Some(v),
            _ => None,
        }
    }

    /// The named column's nullable binary array, if present with that
    /// type.
    pub fn bin_column(&self, name: &str) -> (r: Option<&Vec<Option<Vec<u8>>>>)
        ensures
            r matches Some(v) ==> self.bin_col(name@) == Some(v@),
            r is None ==> self.bin_col(name@) is None,
    {
        match self.column(name) {
            Some(ColumnData::Binary(v)) => Some(v),
            _ => None,
        }
    }
}

} // verus!
