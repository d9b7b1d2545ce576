//! Fixed-capacity key registries backed by `heapless::Vec`: the modifier
//! keys `(phase rank, priority, registration index)` and the skill keys
//! `(priority, registration index)` a director orders.
use vstd::prelude::*;

verus! {

/// Declares the fixed-capacity vector type so it can stand in fields and
/// signatures.
#[verifier::external_type_specification]
#[verifier::external_body]
#[verifier::reject_recursive_types(T)]
pub struct ExHeaplessVec<T, const N: usize>(heapless::Vec<T, N>);

/// The keys held by a modifier registry, in storage order.
pub uninterp spec fn modifier_keys(v: heapless::Vec<(u8, i8, u16), 32>) -> Seq<(u8, i8, u16)>;

/// The keys held by a skill registry, in storage order.
pub uninterp spec fn skill_keys(v: heapless::Vec<(u8, u16), 16>) -> Seq<(u8, u16)>;

/// `heapless::Vec::new`: an empty vector.
#[verifier::external_body]
pub(crate) fn modifier_keys_new() -> (r: heapless::Vec<(u8, i8, u16), 32>)
    ensures
        modifier_keys(r) == Seq::<(u8, i8, u16)>::empty(),
{
    heapless::Vec::new()
}

/// The vector's length (`heapless::Vec` dereferences to a slice of its
/// elements); never more than the capacity 32.
#[verifier::external_body]
pub(crate) fn modifier_keys_len(v: &heapless::Vec<(u8, i8, u16), 32>) -> (r: usize)
    ensures
        r == modifier_keys(*v).len(),
        r <= 32,
{
    v.len()
}

/// Element `i` of the vector (slice indexing through `Deref`).
#[verifier::external_body]
pub(crate) fn modifier_keys_get(v: &heapless::Vec<(u8, i8, u16), 32>, i: usize) -> (r: (u8, i8, u16))
    requires
        i < modifier_keys(*v).len(),
    ensures
        r == modifier_keys(*v)[i as int],
{
    v[i]
}

/// `heapless::Vec::insert`: on a vector below capacity, shifts the tail
/// right and places `x` at `index` (`true`, the call returned `Ok`); on a
/// full vector the call returns `Err(x)` (`false`) and leaves the vector
/// unchanged.
#[verifier::external_body]
pub(crate) fn modifier_keys_insert(v: &mut heapless::Vec<(u8, i8, u16), 32>, index: usize, x: (u8, i8, u16)) -> (r: bool)
    requires
        index <= modifier_keys(*old(v)).len(),
    ensures
        modifier_keys(*old(v)).len() < 32 ==> r && modifier_keys(*final(v)) == modifier_keys(*old(v)).insert(index as int, x),
        modifier_keys(*old(v)).len() >= 32 ==> !r && modifier_keys(*final(v)) == modifier_keys(*old(v)),
{
    v.insert(index, x).is_ok()
}

/// `heapless::Vec::new`: an empty vector.
#[verifier::external_body]
pub(crate) fn skill_keys_new() -> (r: heapless::Vec<(u8, u16), 16>)
    ensures
        skill_keys(r) == Seq::<(u8, u16)>::empty(),
{
    heapless::Vec::new()
}

/// The vector's length; never more than the capacity 16.
#[verifier::external_body]
pub(crate) fn skill_keys_len(v: &heapless::Vec<(u8, u16), 16>) -> (r: usize)
    ensures
        r == skill_keys(*v).len(),
        r <= 16,
{
    v.len()
}

/// Element `i` of the vector.
#[verifier::external_body]
pub(crate) fn skill_keys_get(v: &heapless::Vec<(u8, u16), 16>, i: usize) -> (r: (u8, u16))
    requires
        i < skill_keys(*v).len(),
    ensures
        r == skill_keys(*v)[i as int],
{
    v[i]
}

/// `heapless::Vec::insert` on the skill registry: `true` (`Ok`) and `x`
/// placed at `index` below capacity; `false` (`Err(x)`) and no change when
/// full.
#[verifier::external_body]
pub(crate) fn skill_keys_insert(v: &mut heapless::Vec<(u8, u16), 16>, index: usize, x: (u8, u16)) -> (r: bool)
    requires
        index <= skill_keys(*old(v)).len(),
    ensures
        skill_keys(*old(v)).len() < 16 ==> r && skill_keys(*final(v)) == skill_keys(*old(v)).insert(index as int, x),
        skill_keys(*old(v)).len() >= 16 ==> !r && skill_keys(*final(v)) == skill_keys(*old(v)),
{
    v.insert(index, x).is_ok()
}

} // verus!
