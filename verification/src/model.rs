//! The runtime meaning of the two emitted methods, stated over a record
//! value modelled as its ordered sequence of field values.

use vstd::prelude::*;

verus! {

/// A value of an accepted record: its field values, in declaration order.
/// All fields share one type, so the value is exactly an ordered sequence.
pub struct RecordValue<T> {
    pub fields: Vec<T>,
}

impl<T> RecordValue<T> {
    /// The number of declared fields.
    pub open spec fn spec_len(self) -> nat {
        self.fields@.len()
    }

    /// The emitted `as_array` method: borrow the record and return a
    /// reference to each field, in declaration order, one per field. The
    /// record is not consumed: it is borrowed and remains usable.
    pub fn as_array(&self) -> (r: Vec<&T>)
        ensures
            r@.len() == self.spec_len(),
            forall|i: int| 0 <= i < r@.len() ==> r@[i] == self.fields@[i],
    {
        let mut r: Vec<&T> = Vec::new();
        let mut i: usize = 0;
        while i < self.fields.len()
            invariant
                i <= self.fields@.len(),
                r@.len() == i,
                forall|j: int| 0 <= j < i ==> r@[j] == self.fields@[j],
            decreases self.fields@.len() - i,
        {
            r.push(&self.fields[i]);
            i += 1;
        }
        r
    }

    /// The emitted `to_array` method: consume the record and return its
    /// owned field values, in declaration order, one per field.
    pub fn to_array(self) -> (r: Vec<T>)
        ensures
            r@ == self.fields@,
    {
        self.fields
    }
}

/// Round-trip law: on record values with equal fields, the sequence that
/// `as_array` returns, each reference dereferenced, equals elementwise the
/// sequence that `to_array` returns. The two premises restate exactly what
/// the contracts of `as_array` and `to_array` give their callers.
pub proof fn lemma_round_trip<T>(
    a: RecordValue<T>,
    b: RecordValue<T>,
    refs: Seq<&T>,
    owned: Seq<T>,
)
    requires
        a.fields@ == b.fields@,
        refs.len() == a.spec_len(),
        forall|i: int| 0 <= i < refs.len() ==> refs[i] == a.fields@[i],
        owned == b.fields@,
    ensures
        refs.len() == owned.len(),
        forall|i: int| 0 <= i < refs.len() ==> refs[i] == owned[i],
{
}

} // verus!
