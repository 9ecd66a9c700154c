//! The memory layout that the linker hands to the kernel.

use vstd::prelude::*;

verus! {

/// A memory segment: the addresses from `start` up to, and without, `end`.
#[derive(Clone, Copy, Debug, PartialEq, Eq, Structural)]
pub struct Segment {
    pub start: usize,
    pub end: usize,
}

impl Segment {
    /// Whether `addr` lies in the segment.
    pub open spec fn contains(self, addr: int) -> bool {
        self.start <= addr < self.end
    }
}

/// The segments of the kernel image. The addresses are fixed when the kernel
/// is linked and never change.
#[derive(Clone, Copy, Debug, PartialEq, Eq, Structural)]
pub struct MemoryLayout {
    /// Code.
    pub text: Segment,
    /// Read-only data.
    pub rodata: Segment,
    /// Initialised data.
    pub data: Segment,
    /// Statics without an initialiser, which must read as zero.
    pub bss: Segment,
    /// The boot stack, from its lower bound to its top.
    pub boot_stack: Segment,
}

/// Memory in which every byte of `segment` is zero and every other byte is
/// as it is in `memory`. The byte `memory[i]` has the address `base + i`.
pub open spec fn zeroed(memory: Seq<u8>, base: int, segment: Segment) -> Seq<u8> {
    Seq::new(
        memory.len(),
        |i: int|
            if segment.contains(base + i) {
                0u8
            } else {
                memory[i]
            },
    )
}

/// Whether every address of `segment` is the address of a byte of a memory
/// of `len` bytes that starts at `base`.
pub open spec fn in_memory(len: nat, base: int, segment: Segment) -> bool {
    segment.start < segment.end ==> base <= segment.start && segment.end <= base + len
}

} // verus!
