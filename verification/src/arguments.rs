//! The ordered, append-only buffer of encoded query parameters.

use vstd::prelude::*;

use crate::error::D1Error;
use crate::types::D1Encode;
use crate::value::{HostValue, SpecValue};

verus! {

/// The encoded parameters of one query execution, in binding order.
#[derive(Debug)]
pub struct D1Arguments {
    values: Vec<HostValue>,
}

impl D1Arguments {
    /// The buffer's abstract contents.
    pub closed spec fn view(&self) -> Seq<SpecValue> {
        self.values.deep_view()
    }

    /// The buffer's exact host values.
    pub closed spec fn spec_raw(&self) -> Seq<HostValue> {
        self.values@
    }

    /// An empty argument buffer.
    pub fn new() -> (r: Self)
        ensures
            r@ == Seq::<SpecValue>::empty(),
    {
        let r = D1Arguments { values: Vec::new() };
        proof {
            assert(r@ =~= Seq::<SpecValue>::empty());
        }
        r
    }

    /// How many parameters have been added.
    pub fn len(&self) -> (r: usize)
        ensures
            r == self@.len(),
    {
        self.values.len()
    }

    /// Pre-allocates capacity. The size hint is advisory only and never
    /// affects the contents.
    pub fn reserve(&mut self, additional: usize, _size_hint: usize)
        ensures
            final(self)@ == old(self)@,
            final(self).spec_raw() == old(self).spec_raw(),
    {
        self.values.reserve(additional);
    }

    /// Appends the encoding of one typed parameter. On failure the error
    /// is tagged with the destination parameter index and the buffer is
    /// left with exactly the length and contents it had before the call.
    pub fn add<T: D1Encode>(&mut self, value: &T) -> (r: Result<(), D1Error>)
        ensures
            r is Ok ==> (value.spec_encode() matches Some(sv)
                && final(self)@ == old(self)@.push(sv)),
            r is Err ==> value.spec_encode() is None && final(self)@ == old(self)@
                && final(self).spec_raw() == old(self).spec_raw(),
            r is Err ==> (r->Err_0 matches D1Error::Encode { param_index, .. }
                && param_index == old(self)@.len()),
    {
        let len_before = self.values.len();
        let ghost old_values = self.values@;
        match value.encode_by_ref(&mut self.values) {
            Ok(_) => {
                proof {
                    assert(self@ =~= old(self)@.push(value.spec_encode()->0));
                }
                Ok(())
            },
            Err(e) => {
                self.values.truncate(len_before);
                proof {
                    assert(self.values@ =~= old_values);
                }
                Err(D1Error::Encode { param_index: len_before, message: e.message })
            },
        }
    }

    /// Appends one already-encoded host value, as handed back by a
    /// value-level encoder.
    pub fn push_value(&mut self, v: HostValue)
        ensures
            final(self)@ == old(self)@.push(v@),
            final(self).spec_raw() == old(self).spec_raw().push(v),
    {
        let ghost prev = self.values.deep_view();
        let ghost sv = v@;
        self.values.push(v);
        proof {
            assert(self.values.deep_view() =~= prev.push(sv));
        }
    }

    /// The encoded host values, in binding order, ready to hand to the
    /// host's bind call.
    pub fn as_values(&self) -> (r: &Vec<HostValue>)
        ensures
            r@ == self.spec_raw(),
            r.deep_view() == self@,
    {
        &self.values
    }

    /// Consumes the buffer into the plain list of host values.
    pub fn into_values(self) -> (r: Vec<HostValue>)
        ensures
            r@ == self.spec_raw(),
            r.deep_view() == self@,
    {
        self.values
    }

    /// Hands the buffer itself over for binding, mirroring the toolkit's
    /// conversion of a buffer into bind arguments.
    pub fn into_arguments(self) -> (r: Self)
        ensures
            r@ == self@,
            r.spec_raw() == self.spec_raw(),
    {
        self
    }
}

} // verus!
