//! Decoding one host record into a column-indexed row.
//!
//! A row is built from the record's key/value pairs in their enumeration
//! order: each pair becomes a column whose ordinal is its enumeration
//! index, paired 1:1 with its value. Lookups are bounds-checked and fail
//! with typed errors instead of panicking.

use vstd::prelude::*;
use vstd::string::*;

use crate::error::D1Error;
use crate::text::str_eq;
use crate::type_info::{D1TypeInfo, spec_classify};
use crate::types::D1Decode;
use crate::value::{D1ValueRef, HostValue, SpecValue};

verus! {

/// Positional and named metadata of one result column.
#[derive(Debug, Clone)]
pub struct D1Column {
    /// 0-based position within the row.
    pub ordinal: usize,
    /// The column's name; lookups match it case-sensitively.
    pub name: String,
    /// The storage class of the column's value.
    pub type_info: D1TypeInfo,
}

/// One decoded host record: an ordered sequence of columns paired 1:1
/// with an ordered sequence of values.
#[derive(Debug)]
pub struct D1Row {
    columns: Vec<D1Column>,
    values: Vec<HostValue>,
}

impl D1Row {
    /// The row's column metadata.
    pub closed spec fn spec_columns(&self) -> Seq<D1Column> {
        self.columns@
    }

    /// The row's values, abstractly.
    pub closed spec fn spec_values(&self) -> Seq<SpecValue> {
        self.values.deep_view()
    }

    /// Row well-formedness: as many columns as values, ordinals exactly
    /// `0..len` in enumeration order, and every column tagged with the
    /// class of its value.
    pub open spec fn wf(&self) -> bool {
        &&& self.spec_columns().len() == self.spec_values().len()
        &&& forall|i: int|
            0 <= i < self.spec_columns().len() ==> (#[trigger] self.spec_columns()[i]).ordinal == i
        &&& forall|i: int|
            0 <= i < self.spec_columns().len() ==> (#[trigger] self.spec_columns()[i]).type_info.kind
                == spec_classify(self.spec_values()[i])
    }

    /// Decodes one host record from its key/value pairs, in their given
    /// order. No schema is consulted: the columns are derived entirely
    /// from the shape of the record.
    pub fn from_raw(entries: &Vec<(String, HostValue)>) -> (r: D1Row)
        ensures
            r.wf(),
            r.spec_columns().len() == entries@.len(),
            forall|i: int|
                0 <= i < entries@.len() ==> (#[trigger] r.spec_columns()[i]).name@
                    == entries@[i].0@,
            forall|i: int| 0 <= i < entries@.len() ==> r.spec_values()[i] == entries@[i].1@,
    {
        let n = entries.len();
        let mut columns: Vec<D1Column> = Vec::new();
        let mut values: Vec<HostValue> = Vec::new();
        let mut i: usize = 0;
        while i < n
            invariant
                i <= n,
                n == entries@.len(),
                columns@.len() == i,
                values@.len() == i,
                forall|j: int| 0 <= j < i ==> (#[trigger] columns@[j]).ordinal == j,
                forall|j: int| 0 <= j < i ==> (#[trigger] columns@[j]).name@ == entries@[j].0@,
                forall|j: int| 0 <= j < i ==> values.deep_view()[j] == entries@[j].1@,
                forall|j: int|
                    0 <= j < i ==> (#[trigger] columns@[j]).type_info.kind == spec_classify(
                        values.deep_view()[j],
                    ),
            decreases n - i,
        {
            let name = entries[i].0.clone();
            let value = entries[i].1.duplicate();
            let ti = D1TypeInfo::from_raw(&value);
            let ghost prev_vals = values@;
            let ghost prev_deep = values.deep_view();
            let ghost new_val = value@;
            columns.push(D1Column { ordinal: i, name, type_info: ti });
            values.push(value);
            proof {
                assert forall|j: int| 0 <= j < i + 1 implies values.deep_view()[j] == (
                if j < i {
                    entries@[j].1@
                } else {
                    new_val
                }) by {
                    assert(values.deep_view()[j] == values@[j].deep_view());
                    if j < i {
                        assert(values@[j] == prev_vals[j]);
                        assert(prev_deep[j] == prev_vals[j].deep_view());
                        assert(prev_deep[j] == entries@[j].1@);
                    }
                }
            }
            i = i + 1;
        }
        D1Row { columns, values }
    }

    /// The column metadata, in position order.
    pub fn columns(&self) -> (r: &Vec<D1Column>)
        ensures
            r@ == self.spec_columns(),
    {
        &self.columns
    }

    /// How many columns (and values) the row holds.
    pub fn len(&self) -> (r: usize)
        ensures
            r == self.spec_columns().len(),
    {
        self.columns.len()
    }

    /// Resolves a column name to its position: the first column with that
    /// exact name, or a typed not-found error carrying the name.
    pub fn index_of_name(&self, name: &str) -> (r: Result<usize, D1Error>)
        ensures
            r matches Ok(i) ==> i < self.spec_columns().len()
                && (#[trigger] self.spec_columns()[i as int]).name@ == name@ && (forall|j: int|
                0 <= j < i ==> (#[trigger] self.spec_columns()[j]).name@ != name@),
            r is Err ==> (forall|j: int|
                0 <= j < self.spec_columns().len() ==> (#[trigger] self.spec_columns()[j]).name@
                    != name@),
            r is Err ==> (r->Err_0 matches D1Error::ColumnNotFound { name: n } && n@ == name@),
    {
        let n = self.columns.len();
        let mut i: usize = 0;
        while i < n
            invariant
                i <= n,
                n == self.spec_columns().len(),
                forall|j: int| 0 <= j < i ==> (#[trigger] self.spec_columns()[j]).name@ != name@,
            decreases n - i,
        {
            if str_eq(self.columns[i].name.as_str(), name) {
                return Ok(i);
            }
            i = i + 1;
        }
        Err(D1Error::ColumnNotFound { name: String::from_str(name) })
    }

    /// Bounds-checks a positional index: in range it is returned as is,
    /// out of range it becomes a typed error carrying the index and the
    /// row length.
    pub fn index_of_position(&self, index: usize) -> (r: Result<usize, D1Error>)
        ensures
            r matches Ok(i) ==> i == index && index < self.spec_columns().len(),
            index < self.spec_columns().len() ==> r is Ok,
            r is Err ==> index >= self.spec_columns().len()
                && (r->Err_0 matches D1Error::ColumnIndexOutOfBounds { index: x, len } && x
                == index && len == self.spec_columns().len()),
    {
        if index < self.columns.len() {
            Ok(index)
        } else {
            Err(D1Error::ColumnIndexOutOfBounds { index, len: self.columns.len() })
        }
    }

    /// A borrowed view of the value at a position, bounds-checked.
    pub fn try_get_raw(&self, index: usize) -> (r: Result<D1ValueRef<'_>, D1Error>)
        requires
            self.wf(),
        ensures
            r matches Ok(v) ==> index < self.spec_values().len()
                && v@ == self.spec_values()[index as int],
            index < self.spec_values().len() ==> r is Ok,
            r is Err ==> (r->Err_0 matches D1Error::ColumnIndexOutOfBounds { index: x, len } && x
                == index && len == self.spec_columns().len()),
    {
        let checked = self.index_of_position(index)?;
        let v = &self.values[checked];
        proof {
            assert(self.spec_values()[checked as int] == self.values@[checked as int]@);
        }
        Ok(D1ValueRef::from_raw(v))
    }

    /// A borrowed view of the value under a column name.
    pub fn try_get_raw_by_name(&self, name: &str) -> (r: Result<D1ValueRef<'_>, D1Error>)
        requires
            self.wf(),
        ensures
            r matches Ok(v) ==> (exists|i: int|
                0 <= i < self.spec_columns().len()
                    && (#[trigger] self.spec_columns()[i]).name@ == name@ && v@
                    == self.spec_values()[i]),
            r is Err ==> (forall|j: int|
                0 <= j < self.spec_columns().len() ==> (#[trigger] self.spec_columns()[j]).name@
                    != name@),
            r is Err ==> (r->Err_0 matches D1Error::ColumnNotFound { name: n } && n@ == name@),
    {
        let i = self.index_of_name(name)?;
        let v = &self.values[i];
        proof {
            assert(self.spec_values()[i as int] == self.values@[i as int]@);
        }
        Ok(D1ValueRef::from_raw(v))
    }

    /// Decodes the value at a position into a typed value: in range and
    /// convertible it succeeds; out of range or unconvertible it fails
    /// with the matching typed error.
    pub fn try_get<T: D1Decode>(&self, index: usize) -> (r: Result<T, D1Error>)
        requires
            self.wf(),
        ensures
            r matches Ok(x) ==> index < self.spec_values().len() && T::spec_decode(
                self.spec_values()[index as int],
            ) == Some(x.deep_view()),
            index < self.spec_values().len() && T::spec_decode(
                self.spec_values()[index as int],
            ) is Some ==> r is Ok,
            index >= self.spec_values().len() ==> r is Err
                && (r->Err_0 matches D1Error::ColumnIndexOutOfBounds { index: x, len } && x
                == index && len == self.spec_columns().len()),
            index < self.spec_values().len() && T::spec_decode(
                self.spec_values()[index as int],
            ) is None ==> r is Err && (r->Err_0 matches D1Error::Decode { expected, value }
                && expected@ == T::spec_expected() && value@ == self.spec_values()[index as int]),
    {
        let v = self.try_get_raw(index)?;
        T::decode(v.raw())
    }

    /// Decodes the value under a column name into a typed value: the
    /// first column of that name decides; no such column or an
    /// unconvertible value fails with the matching typed error.
    pub fn try_get_by_name<T: D1Decode>(&self, name: &str) -> (r: Result<T, D1Error>)
        requires
            self.wf(),
        ensures
            r matches Ok(x) ==> (exists|i: int|
                0 <= i < self.spec_columns().len()
                    && (#[trigger] self.spec_columns()[i]).name@ == name@ && T::spec_decode(
                    self.spec_values()[i],
                ) == Some(x.deep_view())),
            (forall|j: int|
                0 <= j < self.spec_columns().len() ==> (#[trigger] self.spec_columns()[j]).name@
                    != name@) ==> r is Err && (r->Err_0 matches D1Error::ColumnNotFound { name: n }
                && n@ == name@),
            forall|i: int|
                (0 <= i < self.spec_columns().len()
                    && (#[trigger] self.spec_columns()[i]).name@ == name@ && (forall|j: int|
                    0 <= j < i ==> (#[trigger] self.spec_columns()[j]).name@ != name@)) ==> (match T::spec_decode(
                    self.spec_values()[i],
                ) {
                    Some(_) => r matches Ok(x) && T::spec_decode(self.spec_values()[i]) == Some(
                        x.deep_view(),
                    ),
                    None => r is Err && (r->Err_0 matches D1Error::Decode { expected, value }
                        && expected@ == T::spec_expected() && value@ == self.spec_values()[i]),
                }),
    {
        let found = self.index_of_name(name);
        match found {
            Ok(i) => {
                proof {
                    assert forall|k: int|
                        (0 <= k < self.spec_columns().len() && self.spec_columns()[k].name@
                            == name@ && (forall|j: int|
                            0 <= j < k ==> (#[trigger] self.spec_columns()[j]).name@
                                != name@)) implies k == i as int by {
                        if k < i as int {
                            assert(self.spec_columns()[k].name@ != name@);
                        }
                        if k > i as int {
                            assert(self.spec_columns()[i as int].name@ != name@);
                        }
                    }
                }
                let v = &self.values[i];
                proof {
                    assert(self.spec_values()[i as int] == self.values@[i as int]@);
                }
                T::decode(v)
            },
            Err(e) => Err(e),
        }
    }
}

} // verus!
