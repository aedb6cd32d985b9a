//! Bit sets: the buffer data types a stream accepts, the flags a stream is
//! connected with and the flags of a format property.

use vstd::prelude::*;

verus! {

/// The set of buffer data types (one bit per `SPA_DATA_*` type) that a stream
/// accepts in its buffers parameter.
#[derive(Clone, Copy, Debug, PartialEq, Eq, Structural)]
pub struct BufferMaskTypes {
    pub bits: i32,
}

/// Every bit that a `BufferMaskTypes` can hold: `SPA_DATA_Invalid` (0) up to
/// `SPA_DATA_SyncObj` (5).
pub open spec fn buffer_mask_all_bits() -> i32 {
    0x3f
}

impl BufferMaskTypes {
    /// The set holding only shared memory.
    pub open spec fn spec_mem_fd() -> Self {
        BufferMaskTypes { bits: 4 }
    }

    /// The set holding only dma-bufs.
    pub open spec fn spec_dma_buf() -> Self {
        BufferMaskTypes { bits: 8 }
    }

    /// The value has no bit beyond the known data types.
    pub open spec fn wf(self) -> bool {
        0 <= self.bits <= buffer_mask_all_bits()
    }

    /// `1 << SPA_DATA_Invalid`
    pub fn invalid() -> (r: Self)
        ensures r.bits == 1, r.wf(),
    {
        BufferMaskTypes { bits: 1 }
    }

    /// `1 << SPA_DATA_MemPtr`
    pub fn mem_ptr() -> (r: Self)
        ensures r.bits == 2, r.wf(),
    {
        BufferMaskTypes { bits: 2 }
    }

    /// `1 << SPA_DATA_MemFd`: shared memory that the CPU maps.
    pub fn mem_fd() -> (r: Self)
        ensures r == Self::spec_mem_fd(), r.bits == 4, r.wf(),
    {
        BufferMaskTypes { bits: 4 }
    }

    /// `1 << SPA_DATA_DmaBuf`: GPU memory handed over as a dma-buf.
    pub fn dma_buf() -> (r: Self)
        ensures r == Self::spec_dma_buf(), r.bits == 8, r.wf(),
    {
        BufferMaskTypes { bits: 8 }
    }

    /// `1 << SPA_DATA_MemId`
    pub fn mem_id() -> (r: Self)
        ensures r.bits == 16, r.wf(),
    {
        BufferMaskTypes { bits: 16 }
    }

    /// `1 << SPA_DATA_SyncObj`
    pub fn sync_obj() -> (r: Self)
        ensures r.bits == 32, r.wf(),
    {
        BufferMaskTypes { bits: 32 }
    }

    /// No data type at all.
    pub fn empty() -> (r: Self)
        ensures r.bits == 0, r.wf(),
    {
        BufferMaskTypes { bits: 0 }
    }

    /// Every known data type.
    pub fn all() -> (r: Self)
        ensures r.bits == buffer_mask_all_bits(), r.wf(),
    {
        BufferMaskTypes { bits: 0x3f }
    }

    /// The raw mask, as the buffers parameter carries it.
    pub fn bits(&self) -> (r: i32)
        ensures r == self.bits,
    {
        self.bits
    }

    /// The mask of the known data types among `bits`; the others are dropped.
    pub fn from_bits_truncate(bits: i32) -> (r: Self)
        ensures
            r.bits == bits & 0x3f,
            r.wf(),
    {
        let b: i32 = bits & 0x3f;
        assert(0 <= bits & 0x3f <= 0x3f) by (bit_vector);
        BufferMaskTypes { bits: b }
    }

    /// The data types in either set.
    pub fn union(self, other: Self) -> (r: Self)
        requires self.wf(), other.wf(),
        ensures
            r.bits == self.bits | other.bits,
            r.wf(),
    {
        let a: i32 = self.bits;
        let b: i32 = other.bits;
        assert(0 <= a <= 0x3f && 0 <= b <= 0x3f ==> 0 <= a | b <= 0x3f) by (bit_vector);
        BufferMaskTypes { bits: a | b }
    }

    /// Whether every data type of `other` is in `self`.
    pub fn contains(&self, other: Self) -> (r: bool)
        ensures r == (self.bits & other.bits == other.bits),
    {
        self.bits & other.bits == other.bits
    }
}

/// Flags that were added are then held; flags that were removed are then not
/// held, whatever else the set held.
pub proof fn lemma_add_remove_flags(a: u32, f: u32)
    ensures
        (a | f) & f == f,
        (a & !f) & f == 0,
        f != 0 ==> (a & !f) & f != f,
{
    assert((a | f) & f == f) by (bit_vector);
    assert((a & !f) & f == 0) by (bit_vector);
}

/// The flags a stream is connected with (`PW_STREAM_FLAG_*`).
#[derive(Clone, Copy, Debug, PartialEq, Eq, Structural)]
pub struct StreamFlags {
    pub bits: u32,
}

/// Every flag bit a `StreamFlags` knows, from `AUTOCONNECT` to `TRIGGER`.
pub open spec fn stream_flags_all_bits() -> u32 {
    0x3ff
}

impl StreamFlags {
    /// No flag at all.
    pub open spec fn spec_empty() -> Self {
        StreamFlags { bits: 0 }
    }

    /// No flag at all.
    pub fn empty() -> (r: Self)
        ensures r == Self::spec_empty(),
    {
        StreamFlags { bits: 0 }
    }

    /// Connect the stream to a node on its own.
    pub fn autoconnect() -> (r: Self)
        ensures r.bits == 1,
    {
        StreamFlags { bits: 1 }
    }

    /// Start the stream inactive.
    pub fn inactive() -> (r: Self)
        ensures r.bits == 2,
    {
        StreamFlags { bits: 2 }
    }

    /// Map the buffers into the process, so that the CPU can read them.
    pub fn map_buffers() -> (r: Self)
        ensures r.bits == 4,
    {
        StreamFlags { bits: 4 }
    }

    /// The stream drives the graph.
    pub fn driver() -> (r: Self)
        ensures r.bits == 8,
    {
        StreamFlags { bits: 8 }
    }

    /// Call the process callback from the realtime thread.
    pub fn rt_process() -> (r: Self)
        ensures r.bits == 16,
    {
        StreamFlags { bits: 16 }
    }

    /// Do not convert the format.
    pub fn no_convert() -> (r: Self)
        ensures r.bits == 32,
    {
        StreamFlags { bits: 32 }
    }

    /// Require exclusive access to the node.
    pub fn exclusive() -> (r: Self)
        ensures r.bits == 64,
    {
        StreamFlags { bits: 64 }
    }

    /// Do not reconnect when the node goes away.
    pub fn dont_reconnect() -> (r: Self)
        ensures r.bits == 128,
    {
        StreamFlags { bits: 128 }
    }

    /// Let the stream allocate its buffers.
    pub fn alloc_buffers() -> (r: Self)
        ensures r.bits == 256,
    {
        StreamFlags { bits: 256 }
    }

    /// The stream is triggered by hand.
    pub fn trigger() -> (r: Self)
        ensures r.bits == 512,
    {
        StreamFlags { bits: 512 }
    }

    /// The raw flags, as a stream is connected with them.
    pub fn bits(&self) -> (r: u32)
        ensures r == self.bits,
    {
        self.bits
    }

    /// The known flags among `bits`; the others are dropped.
    pub fn from_bits_truncate(bits: u32) -> (r: Self)
        ensures r.bits == bits & stream_flags_all_bits(),
    {
        StreamFlags { bits: bits & 0x3ff }
    }

    /// The flags in either set.
    pub fn union(self, other: Self) -> (r: Self)
        ensures r.bits == self.bits | other.bits,
    {
        StreamFlags { bits: self.bits | other.bits }
    }

    /// The flags of `self` that are not in `other`.
    pub fn difference(self, other: Self) -> (r: Self)
        ensures r.bits == self.bits & !other.bits,
    {
        StreamFlags { bits: self.bits & !other.bits }
    }

    /// Whether every flag of `other` is in `self`.
    pub fn contains(&self, other: Self) -> (r: bool)
        ensures r == (self.bits & other.bits == other.bits),
    {
        self.bits & other.bits == other.bits
    }
}

/// The flags of a property of a format object (`SPA_POD_PROP_FLAG_*`).
#[derive(Clone, Copy, Debug, PartialEq, Eq, Structural)]
pub struct PropertyFlags {
    pub bits: u32,
}

impl PropertyFlags {
    /// No flag at all.
    pub fn empty() -> (r: Self)
        ensures r.bits == 0,
    {
        PropertyFlags { bits: 0 }
    }

    /// The property is read-only.
    pub fn readonly() -> (r: Self)
        ensures r.bits == 1,
    {
        PropertyFlags { bits: 1 }
    }

    /// The property is some hardware parameter.
    pub fn hardware() -> (r: Self)
        ensures r.bits == 2,
    {
        PropertyFlags { bits: 2 }
    }

    /// The property holds a dictionary.
    pub fn hint_dict() -> (r: Self)
        ensures r.bits == 4,
    {
        PropertyFlags { bits: 4 }
    }

    /// The property must be negotiated.
    pub fn mandatory() -> (r: Self)
        ensures r.bits == 8,
    {
        PropertyFlags { bits: 8 }
    }

    /// The choices of the property need no fixation.
    pub fn dont_fixate() -> (r: Self)
        ensures r.bits == 16,
    {
        PropertyFlags { bits: 16 }
    }

    /// The raw flags.
    pub fn bits(&self) -> (r: u32)
        ensures r == self.bits,
    {
        self.bits
    }

    /// The known flags among `bits`; the others are dropped.
    pub fn from_bits_truncate(bits: u32) -> (r: Self)
        ensures r.bits == bits & 0x1f,
    {
        PropertyFlags { bits: bits & 0x1f }
    }

    /// The flags in either set.
    pub fn union(self, other: Self) -> (r: Self)
        ensures r.bits == self.bits | other.bits,
    {
        PropertyFlags { bits: self.bits | other.bits }
    }

    /// Whether every flag of `other` is in `self`.
    pub fn contains(&self, other: Self) -> (r: bool)
        ensures r == (self.bits & other.bits == other.bits),
    {
        self.bits & other.bits == other.bits
    }
}

} // verus!
