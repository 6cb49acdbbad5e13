use vstd::prelude::*;

verus! {

/// A foreign count/pointer pair, as copied out of foreign memory.
///
/// `items` holds what the pointer addressed: the embedding program reads
/// exactly [`trusted_count`] elements, and none when the pair is not trusted.
pub struct ForeignArray<T> {
    pub is_null: bool,
    pub count: i32,
    pub items: Vec<T>,
}

/// How many elements a count/pointer pair vouches for: its count when the
/// count is positive and the pointer non-null, else none.
pub open spec fn trusted_len(is_null: bool, count: i32) -> nat {
    if !is_null && count > 0 {
        count as nat
    } else {
        0
    }
}

/// Number of elements that may be read behind a count/pointer pair.
pub fn trusted_count(is_null: bool, count: i32) -> (r: usize)
    ensures
        r == trusted_len(is_null, count),
{
    if !is_null && count > 0 {
        count as usize
    } else {
        0
    }
}

impl<T> ForeignArray<T> {
    /// Whether the pair vouches for any element.
    pub open spec fn trusted(&self) -> bool {
        !self.is_null && self.count > 0
    }

    /// The elements the pair stands for: none unless it is trusted.
    pub open spec fn elements(&self) -> Seq<T> {
        if self.trusted() {
            self.items@
        } else {
            Seq::empty()
        }
    }
}

/// Copies the integers behind a foreign count/pointer pair.
pub fn int64_values(arr: &ForeignArray<i64>) -> (r: Vec<i64>)
    ensures
        r@ == arr.elements(),
{
    if arr.is_null || arr.count <= 0 {
        return Vec::new();
    }
    let mut out: Vec<i64> = Vec::new();
    let mut i: usize = 0;
    while i < arr.items.len()
        invariant
            arr.trusted(),
            i <= arr.items@.len(),
            out@ == arr.items@.subrange(0, i as int),
        decreases arr.items@.len() - i,
    {
        out.push(arr.items[i]);
        i += 1;
    }
    assert(arr.items@.subrange(0, arr.items@.len() as int) == arr.items@);
    out
}

} // verus!
