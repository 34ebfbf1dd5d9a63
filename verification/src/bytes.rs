//! Byte strings: comparing and copying them.

use vstd::prelude::*;
use vstd::string::*;

verus! {

/// What a list of byte slices holds.
pub open spec fn slice_views(slices: Seq<&[u8]>) -> Seq<Seq<u8>> {
    slices.map_values(|slice: &[u8]| slice@)
}

/// What a list of byte vectors holds.
pub open spec fn vec_views(vecs: Seq<Vec<u8>>) -> Seq<Seq<u8>> {
    vecs.map_values(|vec: Vec<u8>| vec@)
}

/// Whether two byte strings are the same.
pub fn bytes_equal(a: &[u8], b: &[u8]) -> (equal: bool)
    ensures
        equal == (a@ == b@),
{
    if a.len() != b.len() {
        return false;
    }
    let mut i: usize = 0;
    while i < a.len()
        invariant
            a.len() == b.len(),
            i <= a.len(),
            forall|j: int| 0 <= j < i ==> a@[j] == b@[j],
        decreases a.len() - i,
    {
        if a[i] != b[i] {
            assert(a@[i as int] != b@[i as int]);
            return false;
        }
        i += 1;
    }
    assert(a@ =~= b@);
    true
}

/// Whether a byte string spells `text`.
pub fn spells(bytes: &[u8], text: &str) -> (same: bool)
    ensures
        same == (bytes@ == text.spec_bytes()),
{
    bytes_equal(bytes, text.as_bytes())
}

/// Borrows every byte string of a list.
pub fn as_slices(vecs: &Vec<Vec<u8>>) -> (slices: Vec<&[u8]>)
    ensures
        slice_views(slices@) == vec_views(vecs@),
{
    let mut slices: Vec<&[u8]> = Vec::new();
    let mut i: usize = 0;
    while i < vecs.len()
        invariant
            i <= vecs.len(),
            slices.len() == i,
            forall|j: int| 0 <= j < i ==> (#[trigger] slices@[j])@ == vecs@[j]@,
        decreases vecs.len() - i,
    {
        slices.push(vecs[i].as_slice());
        i += 1;
    }
    assert(slice_views(slices@) =~= vec_views(vecs@));
    slices
}

/// Copies a byte string.
pub fn to_bytes(slice: &[u8]) -> (vec: Vec<u8>)
    ensures
        vec@ == slice@,
{
    let mut vec: Vec<u8> = Vec::new();
    let mut i: usize = 0;
    while i < slice.len()
        invariant
            i <= slice.len(),
            vec@ == slice@.take(i as int),
        decreases slice.len() - i,
    {
        vec.push(slice[i]);
        i += 1;
        assert(slice@.take(i as int) =~= slice@.take(i - 1).push(slice@[i - 1]));
    }
    assert(slice@.take(i as int) =~= slice@);
    vec
}

/// Copies every byte string of a list.
pub fn to_byte_strings(slices: &[&[u8]]) -> (vecs: Vec<Vec<u8>>)
    ensures
        vec_views(vecs@) == slice_views(slices@),
{
    let mut vecs: Vec<Vec<u8>> = Vec::new();
    let mut i: usize = 0;
    while i < slices.len()
        invariant
            i <= slices.len(),
            vecs.len() == i,
            forall|j: int| 0 <= j < i ==> (#[trigger] vecs@[j])@ == slices@[j]@,
        decreases slices.len() - i,
    {
        vecs.push(to_bytes(slices[i]));
        i += 1;
    }
    assert(vec_views(vecs@) =~= slice_views(slices@));
    vecs
}

} // verus!
