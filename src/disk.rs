//! Sizing of a new VM disk image.

use vstd::prelude::*;

verus! {

/// Disk images are sized in whole blocks of this many bytes.
pub const DISK_BLOCK_SIZE: u64 = 512;

/// Nine tenths of `free`, rounded down to whole blocks.
pub open spec fn disk_size_spec(free: nat) -> nat {
    (free * 9 / 10) / 512 * 512
}

/// Size of the disk to create when `free` bytes are free on the root
/// filesystem: 90% of them, rounded down to a multiple of 512 bytes.
pub fn disk_size_for(free: u64) -> (r: u64)
    ensures
        r as nat == disk_size_spec(free as nat),
        r % 512 == 0,
        r as nat <= free as nat * 9 / 10,
{
    let scaled: u128 = (free as u128) * 9 / 10;
    proof {
        lemma_nine_tenths_fits(free as nat);
    }
    let blocks: u128 = scaled / (DISK_BLOCK_SIZE as u128);
    let r: u128 = blocks * (DISK_BLOCK_SIZE as u128);
    proof {
        lemma_disk_size_aligned(free as nat);
    }
    r as u64
}

proof fn lemma_nine_tenths_fits(f: nat)
    ensures
        f * 9 / 10 <= f,
{
    assert(f * 9 / 10 <= f) by (nonlinear_arith);
}

/// The computed disk size is a whole number of blocks and never exceeds nine
/// tenths of the free space.
pub proof fn lemma_disk_size_aligned(free: nat)
    ensures
        disk_size_spec(free) % 512 == 0,
        disk_size_spec(free) <= free * 9 / 10,
        disk_size_spec(free) + 512 > free * 9 / 10,
{
    let t = free * 9 / 10;
    assert((t / 512 * 512) % 512 == 0) by (nonlinear_arith);
    assert(t / 512 * 512 <= t) by (nonlinear_arith);
    assert(t / 512 * 512 + 512 > t) by (nonlinear_arith);
}

} // verus!
