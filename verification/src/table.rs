//! The lookup table and the evaluation of an angle against it.

use vstd::prelude::*;
use crate::binary64::Binary64;
use crate::degree::{degree_index, index_of, lemma_index_periodic, rounded};
use crate::tangent::{guarded_tangent, tangent_of, Tangent};

verus! {

/// Number of entries in a lookup table: one for each whole degree of a full
/// turn.
pub const TABLE_SIZE: usize = 360;

/// A sine and a cosine for each whole degree `0..360`, as the maker of the
/// table supplied them: two sequences of 360 values, each indexed by the degree.
pub struct LookupTable {
    sin_values: Vec<Binary64>,
    cos_values: Vec<Binary64>,
}

/// Sine, cosine and tangent of one table entry.
#[derive(Clone, Copy, Debug, PartialEq, Eq, Structural)]
pub struct TrigResult {
    pub sin: Binary64,
    pub cos: Binary64,
    pub tan: Tangent,
}

/// What a table of the given sines and cosines yields at an index.
pub open spec fn result_at(sin_values: Seq<Binary64>, cos_values: Seq<Binary64>, index: int)
    -> TrigResult {
    TrigResult {
        sin: sin_values[index],
        cos: cos_values[index],
        tan: tangent_of(sin_values[index], cos_values[index]),
    }
}

impl LookupTable {
    #[verifier::type_invariant]
    spec fn complete(self) -> bool {
        self.sin_values@.len() == TABLE_SIZE && self.cos_values@.len() == TABLE_SIZE
    }

    /// The sines, by degree.
    pub closed spec fn sin_values(self) -> Seq<Binary64> {
        self.sin_values@
    }

    /// The cosines, by degree.
    pub closed spec fn cos_values(self) -> Seq<Binary64> {
        self.cos_values@
    }

    /// What the table yields at an index.
    pub open spec fn result(self, index: int) -> TrigResult {
        result_at(self.sin_values(), self.cos_values(), index)
    }

    /// Makes a table of the sines and cosines of the degrees `0..360`, in that
    /// order.  There is a table exactly where each sequence has 360 entries.
    pub fn from_values(sin_values: Vec<Binary64>, cos_values: Vec<Binary64>)
        -> (table: Option<LookupTable>)
        ensures
            table is Some <==> sin_values@.len() == TABLE_SIZE && cos_values@.len() == TABLE_SIZE,
            table matches Some(t) ==> t.sin_values() == sin_values@,
            table matches Some(t) ==> t.cos_values() == cos_values@,
    {
        if sin_values.len() == TABLE_SIZE && cos_values.len() == TABLE_SIZE {
            Some(LookupTable { sin_values, cos_values })
        } else {
            None
        }
    }

    /// The number of entries, which is 360 for every table.
    pub fn len(&self) -> (len: usize)
        ensures
            len == TABLE_SIZE,
            len == self.sin_values().len(),
            len == self.cos_values().len(),
    {
        proof {
            use_type_invariant(self);
        }
        self.sin_values.len()
    }

    /// The sine of a whole degree; there is one exactly for the degrees below
    /// 360.
    pub fn sin(&self, degree: usize) -> (value: Option<Binary64>)
        ensures
            value == if degree < TABLE_SIZE {
                Some(self.sin_values()[degree as int])
            } else {
                None
            },
    {
        proof {
            use_type_invariant(self);
        }
        if degree < TABLE_SIZE {
            Some(self.sin_values[degree])
        } else {
            None
        }
    }

    /// The cosine of a whole degree; there is one exactly for the degrees below
    /// 360.
    pub fn cos(&self, degree: usize) -> (value: Option<Binary64>)
        ensures
            value == if degree < TABLE_SIZE {
                Some(self.cos_values()[degree as int])
            } else {
                None
            },
    {
        proof {
            use_type_invariant(self);
        }
        if degree < TABLE_SIZE {
            Some(self.cos_values[degree])
        } else {
            None
        }
    }

    /// Sine, cosine and guarded tangent of a whole degree below 360.
    pub(crate) fn entry_at(&self, degree: usize) -> (entry: TrigResult)
        requires
            degree < TABLE_SIZE,
        ensures
            entry == self.result(degree as int),
    {
        proof {
            use_type_invariant(self);
        }
        let sin = self.sin_values[degree];
        let cos = self.cos_values[degree];
        TrigResult { sin, cos, tan: guarded_tangent(sin, cos) }
    }

    /// Sine, cosine and guarded tangent of a whole degree; there is an entry
    /// exactly for the degrees below 360.
    pub fn entry(&self, degree: usize) -> (entry: Option<TrigResult>)
        ensures
            entry == if degree < TABLE_SIZE {
                Some(self.result(degree as int))
            } else {
                None
            },
    {
        if degree < TABLE_SIZE {
            Some(self.entry_at(degree))
        } else {
            None
        }
    }
}

/// Sine and cosine of an angle in degrees: the entries of the table at the
/// angle's index.
pub fn lookup_sin_cos(deg: Binary64, table: &LookupTable) -> (pair: (Binary64, Binary64))
    ensures
        0 <= index_of(deg) < TABLE_SIZE,
        pair.0 == table.sin_values()[index_of(deg)],
        pair.1 == table.cos_values()[index_of(deg)],
{
    proof {
        use_type_invariant(table);
    }
    let index = degree_index(deg);
    (table.sin_values[index], table.cos_values[index])
}

/// Sine, cosine and tangent of an angle in degrees.
///
/// The angle is rounded to the nearest whole degree and reduced modulo 360;
/// sine and cosine are the table's entries there, and the tangent is guarded:
/// a signed infinity where the cosine is nearly zero, their quotient elsewhere.
pub fn evaluate(angle_degrees: Binary64, table: &LookupTable) -> (result: TrigResult)
    ensures
        0 <= index_of(angle_degrees) < TABLE_SIZE,
        result == table.result(index_of(angle_degrees)),
{
    table.entry_at(degree_index(angle_degrees))
}

/// Angles whose whole degrees differ by full turns evaluate alike on every
/// table.
pub proof fn lemma_evaluation_periodic(
    table: LookupTable,
    first: Binary64,
    second: Binary64,
    turns: int,
)
    requires
        first.finite(),
        second.finite(),
        rounded(second) == rounded(first) + 360 * turns,
    ensures
        table.result(index_of(first)) == table.result(index_of(second)),
{
    lemma_index_periodic(first, second, turns);
}

} // verus!
