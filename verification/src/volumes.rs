//! Drive letters from a volume bitmask.
//!
//! The host reports mounted volumes as a bitmask whose bit `i` stands for
//! the drive lettered `i` letters past `A`.  The first four letters are
//! reserved for system and removable drives and are skipped.

use vstd::prelude::*;
use crate::chars::is_upper;

verus! {

/// Whether bit `i` of `mask` is set.
pub open spec fn bit_set(mask: u32, i: u32) -> bool {
    (mask >> i) & 1 == 1
}

/// The drive letter that bit `i` stands for.
pub open spec fn letter_of(i: u32) -> char {
    ((65 + i) as u8) as char
}

/// The letters of the set bits of `mask` from bit `i` up to bit 25, in order.
pub open spec fn letters_from(mask: u32, i: u32) -> Seq<char>
    decreases 26 - i,
{
    if i >= 26 {
        Seq::empty()
    } else {
        (if bit_set(mask, i) {
            seq![letter_of(i)]
        } else {
            Seq::empty()
        }) + letters_from(mask, (i + 1) as u32)
    }
}

/// The letters of the volumes `mask` reports, bits 4 through 25.
pub open spec fn drive_letters_spec(mask: u32) -> Seq<char> {
    letters_from(mask, 4)
}

proof fn lemma_letters_upper(mask: u32, i: u32)
    requires
        4 <= i,
    ensures
        forall|j: int|
            0 <= j < letters_from(mask, i).len() ==> is_upper(#[trigger] letters_from(mask, i)[j]),
    decreases 26 - i,
{
    if i < 26 {
        lemma_letters_upper(mask, (i + 1) as u32);
        assert(letter_of(i) as u32 == 65 + i);
        let s = letters_from(mask, i);
        let t = letters_from(mask, (i + 1) as u32);
        if bit_set(mask, i) {
            assert forall|j: int| 0 <= j < s.len() implies is_upper(s[j]) by {
                if j > 0 {
                    assert(s[j] == t[j - 1]);
                }
            }
        } else {
            assert forall|j: int| 0 <= j < s.len() implies is_upper(s[j]) by {
                assert(s[j] == t[j]);
            }
        }
    }
}

/// Converts the volume bitmask into the list of present drive letters,
/// skipping the first four letters.
pub fn drive_letters_from_mask(mask: u32) -> (r: Vec<char>)
    ensures
        r@ == drive_letters_spec(mask),
        forall|j: int| 0 <= j < r@.len() ==> is_upper(#[trigger] r@[j]),
{
    let mut r: Vec<char> = Vec::new();
    let mut i: u32 = 4;
    while i < 26
        invariant
            4 <= i <= 26,
            r@ + letters_from(mask, i) == drive_letters_spec(mask),
        decreases 26 - i,
    {
        if (mask >> i) & 1 == 1 {
            let b: u8 = 65 + (i as u8);
            r.push(b as char);
            proof {
                assert(r@ + letters_from(mask, (i + 1) as u32) =~= drive_letters_spec(mask));
            }
        } else {
            proof {
                assert(r@ + letters_from(mask, (i + 1) as u32) =~= drive_letters_spec(mask));
            }
        }
        i += 1;
    }
    proof {
        assert(r@ =~= drive_letters_spec(mask));
        lemma_letters_upper(mask, 4);
    }
    r
}

} // verus!
