//! `mach_timebase_info`: the ratio from ticks to nanoseconds.

use vstd::prelude::*;

verus! {

/// Status code that a Mach kernel call hands back to the guest.
pub type KernReturn = i32;

/// The guest's "no error" status.
pub const KERN_SUCCESS: KernReturn = 0;

/// Size in bytes of a timebase record in guest memory.
pub const TIMEBASE_INFO_SIZE: usize = 8;

/// The tick-to-nanosecond ratio as the guest sees it:
/// `nanoseconds = ticks * numerator / denominator`.
#[derive(Clone, Copy, Debug, PartialEq, Eq, Structural)]
pub struct MachTimebaseInfo {
    pub numerator: u32,
    pub denominator: u32,
}

/// The four bytes of `x`, least significant first.
pub open spec fn le_u32_bytes(x: u32) -> Seq<u8> {
    seq![
        (x % 256) as u8,
        ((x / 256) % 256) as u8,
        ((x / 65536) % 256) as u8,
        (x / 16777216) as u8,
    ]
}

/// The ratio this emulation reports: one tick is one nanosecond.
pub open spec fn emulated_timebase() -> MachTimebaseInfo {
    MachTimebaseInfo { numerator: 1, denominator: 1 }
}

impl MachTimebaseInfo {
    /// The record's layout in guest memory: numerator, then denominator,
    /// each little-endian, no padding.
    pub open spec fn spec_bytes(self) -> Seq<u8> {
        le_u32_bytes(self.numerator) + le_u32_bytes(self.denominator)
    }

    /// Nanoseconds for a tick count under this ratio.
    pub open spec fn spec_ticks_to_nanos(self, ticks: int) -> int {
        (ticks * self.numerator) / (self.denominator as int)
    }

    /// The guest-memory bytes of this record.
    pub fn to_bytes(&self) -> (r: Vec<u8>)
        ensures
            r@ == self.spec_bytes(),
    {
        let mut r: Vec<u8> = Vec::with_capacity(TIMEBASE_INFO_SIZE);
        push_le_u32(&mut r, self.numerator);
        push_le_u32(&mut r, self.denominator);
        r
    }

    /// Applies the ratio to a raw tick count, rounding down.
    pub fn ticks_to_nanos(&self, ticks: u64) -> (r: u128)
        requires
            self.denominator != 0,
        ensures
            r == self.spec_ticks_to_nanos(ticks as int),
    {
        let t = ticks as u128;
        let n = self.numerator as u128;
        proof {
            assert(t * n <= u64::MAX as int * u32::MAX as int) by (nonlinear_arith)
                requires
                    t <= u64::MAX,
                    n <= u32::MAX,
                    0 <= t,
                    0 <= n,
            ;
        }
        (t * n) / (self.denominator as u128)
    }
}

/// Appends the little-endian bytes of `x`.
fn push_le_u32(out: &mut Vec<u8>, x: u32)
    ensures
        final(out)@ == old(out)@ + le_u32_bytes(x),
{
    out.push((x % 256) as u8);
    out.push(((x / 256) % 256) as u8);
    out.push(((x / 65536) % 256) as u8);
    out.push((x / 16777216) as u8);
    assert(final(out)@ =~= old(out)@ + le_u32_bytes(x));
}

/// The ratio this emulation reports.
pub fn timebase_info() -> (r: MachTimebaseInfo)
    ensures
        r == emulated_timebase(),
{
    MachTimebaseInfo { numerator: 1, denominator: 1 }
}

/// Stores `bytes` into guest memory starting at `addr`.
fn store_guest_bytes(guest_mem: &mut Vec<u8>, addr: usize, bytes: &Vec<u8>)
    requires
        addr + bytes@.len() <= old(guest_mem)@.len(),
    ensures
        final(guest_mem)@ == old(guest_mem)@.subrange(0, addr as int) + bytes@
            + old(guest_mem)@.subrange(addr + bytes@.len(), old(guest_mem)@.len() as int),
{
    let ghost before = guest_mem@;
    let len: usize = guest_mem.len();
    let mut i: usize = 0;
    while i < bytes.len()
        invariant
            i <= bytes@.len(),
            addr + bytes@.len() <= before.len(),
            before.len() == len,
            guest_mem@.len() == before.len(),
            forall|k: int| 0 <= k < addr ==> guest_mem@[k] == before[k],
            forall|k: int| 0 <= k < i ==> guest_mem@[addr + k] == bytes@[k],
            forall|k: int| addr + i <= k < before.len() ==> guest_mem@[k] == before[k],
        decreases bytes@.len() - i,
    {
        guest_mem[addr + i] = bytes[i];
        i = i + 1;
    }
    assert(guest_mem@ =~= before.subrange(0, addr as int) + bytes@
        + before.subrange(addr + bytes@.len(), before.len() as int));
}

/// Writes the emulated timebase record at guest address `info` and reports
/// success; the call has no failure path.
pub fn mach_timebase_info(guest_mem: &mut Vec<u8>, info: usize) -> (r: KernReturn)
    requires
        info + TIMEBASE_INFO_SIZE <= old(guest_mem)@.len(),
    ensures
        r == KERN_SUCCESS,
        final(guest_mem)@ == old(guest_mem)@.subrange(0, info as int)
            + emulated_timebase().spec_bytes()
            + old(guest_mem)@.subrange(info + TIMEBASE_INFO_SIZE, old(guest_mem)@.len() as int),
{
    let record = timebase_info().to_bytes();
    store_guest_bytes(guest_mem, info, &record);
    KERN_SUCCESS
}

/// The emulated ratio is the identity: applying it to any tick count gives
/// that count back.
pub proof fn lemma_emulated_ratio_keeps_ticks(ticks: u64)
    ensures
        emulated_timebase().spec_ticks_to_nanos(ticks as int) == ticks,
{
}

/// The emulated record is laid out as the bytes `1 0 0 0 1 0 0 0`.
pub proof fn lemma_emulated_record_bytes()
    ensures
        emulated_timebase().spec_bytes() == seq![1u8, 0u8, 0u8, 0u8, 1u8, 0u8, 0u8, 0u8],
{
    assert(emulated_timebase().spec_bytes() =~= seq![1u8, 0u8, 0u8, 0u8, 1u8, 0u8, 0u8, 0u8]);
}

} // verus!
