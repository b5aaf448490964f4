//! Resolution of a scene intersection to its closest hit.

use vstd::prelude::*;

verus! {

/// The value order of a single-precision bit pattern that is not a NaN: the
/// magnitude bits (exponent and mantissa) grow with the absolute value, and
/// the top bit gives the sign. Both zeros are zero.
pub open spec fn signed_magnitude(bits: u32) -> int {
    let magnitude = (bits & 0x7fff_ffff) as int;
    if bits >> 31 == 1 {
        -magnitude
    } else {
        magnitude
    }
}

/// Maps the bit pattern of a ray parameter to an unsigned key that orders as
/// the parameter's value does, so that hits can be compared as integers. The
/// two zeros get one key.
pub fn order_key(bits: u32) -> (r: u32)
    ensures
        r == 0x8000_0000 + signed_magnitude(bits),
{
    let magnitude: u32 = bits & 0x7fff_ffff;
    assert(magnitude <= 0x7fff_ffff) by (bit_vector)
        requires
            magnitude == bits & 0x7fff_ffff,
    ;
    if bits >> 31 == 1 {
        0x8000_0000 - magnitude
    } else {
        assert(magnitude == bits) by (bit_vector)
            requires
                magnitude == bits & 0x7fff_ffff,
                bits >> 31 != 1,
        ;
        0x8000_0000 + magnitude
    }
}

/// Whether entry `i` of `keys` is a hit that no other hit comes before: its
/// key is the least of all hits' keys, and every earlier hit's key is greater
/// (on equal keys the first one found wins).
pub open spec fn is_closest(keys: Seq<Option<u32>>, i: int) -> bool {
    &&& 0 <= i < keys.len()
    &&& keys[i] is Some
    &&& forall|j: int| 0 <= j < keys.len() && #[trigger] keys[j] is Some
        ==> keys[i]->0 <= keys[j]->0
    &&& forall|j: int| 0 <= j < i && #[trigger] keys[j] is Some ==> keys[i]->0 < keys[j]->0
}

/// Picks, among the results of testing each primitive of a scene in order,
/// the hit closest along the ray. `keys[i]` is `None` where primitive `i` was
/// missed, else a key that orders hits as their ray parameters do (such as
/// `order_key` of the parameter's bit pattern). The result
/// is `None` exactly when every primitive was missed.
pub fn closest_hit(keys: &Vec<Option<u32>>) -> (r: Option<usize>)
    ensures
        r is None <==> (forall|j: int| 0 <= j < keys@.len() ==> #[trigger] keys@[j] is None),
        r matches Some(i) ==> is_closest(keys@, i as int),
{
    let mut best: Option<usize> = None;
    let mut best_key: u32 = 0;
    let mut i: usize = 0;
    while i < keys.len()
        invariant
            i <= keys.len(),
            best is None <==> (forall|j: int| 0 <= j < i ==> #[trigger] keys@[j] is None),
            best matches Some(b) ==> {
                &&& b < i
                &&& keys@[b as int] == Some(best_key)
                &&& forall|j: int| 0 <= j < i && #[trigger] keys@[j] is Some ==> best_key
                    <= keys@[j]->0
                &&& forall|j: int| 0 <= j < b && #[trigger] keys@[j] is Some ==> best_key
                    < keys@[j]->0
            },
        decreases keys.len() - i,
    {
        if let Some(k) = keys[i] {
            let closer = match best {
                None => true,
                Some(_) => k < best_key,
            };
            if closer {
                best = Some(i);
                best_key = k;
            }
        }
        i = i + 1;
    }
    best
}

} // verus!
