use vstd::prelude::*;
use crate::error::HwinfoError;
use crate::foreign::ForeignArray;

verus! {

/// An owned record converted from a foreign struct instance.
pub trait Record: Sized {
    /// The plain snapshot of the foreign struct.
    type Raw;

    /// Whether every text field of the snapshot decodes.
    spec fn well_encoded(raw: &Self::Raw) -> bool;

    /// Whether this record is the conversion of the snapshot: scalars copied,
    /// texts decoded, arrays decoded element by element.
    spec fn decoded_from(&self, raw: &Self::Raw) -> bool;

    /// Converts one snapshot, failing on the first text that is not UTF-8.
    fn from_raw(raw: &Self::Raw) -> (r: Result<Self, HwinfoError>)
        ensures
            r is Ok <==> Self::well_encoded(raw),
            r matches Ok(v) ==> v.decoded_from(raw),
            r matches Err(e) ==> e is InvalidString,
    ;
}

/// Whether every snapshot of a sequence converts.
pub open spec fn all_well_encoded<T: Record>(raws: Seq<T::Raw>) -> bool {
    forall|i: int| 0 <= i < raws.len() ==> T::well_encoded(&#[trigger] raws[i])
}

/// Whether `records` converts `raws` element by element, in order.
pub open spec fn all_decoded_from<T: Record>(records: Seq<T>, raws: Seq<T::Raw>) -> bool {
    &&& records.len() == raws.len()
    &&& forall|i: int| 0 <= i < raws.len() ==> (#[trigger] records[i]).decoded_from(&raws[i])
}

/// Converts a sequence of snapshots in order, stopping at the first failure.
pub fn decode_all<T: Record>(raws: &Vec<T::Raw>) -> (r: Result<Vec<T>, HwinfoError>)
    ensures
        r is Ok <==> all_well_encoded::<T>(raws@),
        r matches Ok(v) ==> all_decoded_from(v@, raws@),
        r matches Err(e) ==> e is InvalidString,
{
    let mut out: Vec<T> = Vec::new();
    let mut i: usize = 0;
    while i < raws.len()
        invariant
            i <= raws@.len(),
            all_well_encoded::<T>(raws@.subrange(0, i as int)),
            all_decoded_from(out@, raws@.subrange(0, i as int)),
        decreases raws@.len() - i,
    {
        match T::from_raw(&raws[i]) {
            Ok(v) => out.push(v),
            Err(e) => {
                assert(!T::well_encoded(&raws@[i as int]));
                return Err(e);
            },
        }
        i += 1;
        assert(raws@.subrange(0, i as int).drop_last() == raws@.subrange(0, i - 1));
    }
    assert(raws@.subrange(0, raws@.len() as int) == raws@);
    Ok(out)
}

/// Converts the elements behind a foreign count/pointer pair; an untrusted
/// pair gives an empty sequence.
pub fn decode_array<T: Record>(arr: &ForeignArray<T::Raw>) -> (r: Result<Vec<T>, HwinfoError>)
    ensures
        r is Ok <==> all_well_encoded::<T>(arr.elements()),
        r matches Ok(v) ==> all_decoded_from(v@, arr.elements()),
        r matches Err(e) ==> e is InvalidString,
{
    if arr.is_null || arr.count <= 0 {
        return Ok(Vec::new());
    }
    decode_all(&arr.items)
}

} // verus!
