//! Index arithmetic for appending one vertex buffer to another.

use vstd::prelude::*;

verus! {

/// Appends `new_inds` to `inds`, shifting each new index by `offset` so that
/// it points past the vertices already in the buffer.
pub fn extend_indices(inds: &mut Vec<u32>, new_inds: &Vec<u32>, offset: u32)
    requires
        forall|i: int| 0 <= i < new_inds@.len() ==> new_inds@[i] + offset <= u32::MAX,
    ensures
        final(inds)@ == old(inds)@ + new_inds@.map_values(|ind: u32| (ind + offset) as u32),
{
    let ghost orig = inds@;
    let mut i: usize = 0;
    while i < new_inds.len()
        invariant
            i <= new_inds@.len(),
            forall|j: int| 0 <= j < new_inds@.len() ==> new_inds@[j] + offset <= u32::MAX,
            inds@ == orig + new_inds@.subrange(0, i as int).map_values(
                |ind: u32| (ind + offset) as u32,
            ),
        decreases new_inds@.len() - i,
    {
        inds.push(new_inds[i] + offset);
        i = i + 1;
        proof {
            assert(new_inds@.subrange(0, i as int).map_values(|ind: u32| (ind + offset) as u32)
                =~= new_inds@.subrange(0, i - 1).map_values(|ind: u32| (ind + offset) as u32)
                    + seq![(new_inds@[i - 1] + offset) as u32]);
            assert(inds@ =~= orig + new_inds@.subrange(0, i as int).map_values(
                |ind: u32| (ind + offset) as u32,
            ));
        }
    }
    proof {
        assert(new_inds@.subrange(0, new_inds@.len() as int) =~= new_inds@);
    }
}

} // verus!
