//! DMA descriptor rings for the serial bus.
//!
//! The bus transport owns one transmit and one receive descriptor ring.
//! Both are sized once, at construction, from the configured maximum
//! in-flight byte count: one descriptor per chunk of at most
//! `DMA_CHUNK_CAPACITY` bytes.  The rings are never resized at runtime;
//! the ring type offers no operation that changes a count.

use vstd::prelude::*;

verus! {

/// The largest number of bytes one DMA descriptor can cover.
pub const DMA_CHUNK_CAPACITY: usize = 4092;

/// How many descriptors a ring needs to cover `capacity` bytes: the
/// chunk count, rounded up.
pub open spec fn descriptor_count(capacity: nat) -> nat {
    ((capacity + DMA_CHUNK_CAPACITY - 1) / (DMA_CHUNK_CAPACITY as int)) as nat
}

/// One DMA transfer descriptor slot.  A freshly allocated slot belongs
/// to the processor until the engine is handed a transfer.
pub struct DmaDescriptor {
    pub owned_by_dma: bool,
}

/// A transmit ring and a receive ring, both sized at construction for a
/// fixed maximum in-flight byte count.
pub struct DmaDescriptorRing {
    byte_capacity: usize,
    tx: Vec<DmaDescriptor>,
    rx: Vec<DmaDescriptor>,
}

impl DmaDescriptorRing {
    /// The byte capacity the rings were sized for.
    pub closed spec fn byte_capacity(self) -> usize {
        self.byte_capacity
    }

    /// The number of transmit descriptors.
    pub closed spec fn tx_count(self) -> nat {
        self.tx@.len()
    }

    /// The number of receive descriptors.
    pub closed spec fn rx_count(self) -> nat {
        self.rx@.len()
    }

    /// Both rings hold exactly the descriptor count determined by the
    /// byte capacity.
    pub open spec fn well_sized(self) -> bool {
        &&& self.tx_count() == descriptor_count(self.byte_capacity() as nat)
        &&& self.rx_count() == descriptor_count(self.byte_capacity() as nat)
    }

    /// Allocate the transmit and receive rings for `capacity` in-flight
    /// bytes.  Both ring sizes are a pure function of the capacity.
    pub fn new(capacity: usize) -> (r: DmaDescriptorRing)
        requires
            capacity <= usize::MAX - (DMA_CHUNK_CAPACITY - 1),
        ensures
            r.byte_capacity() == capacity,
            r.well_sized(),
    {
        let count: usize = (capacity + (DMA_CHUNK_CAPACITY - 1)) / DMA_CHUNK_CAPACITY;
        let tx = Self::alloc_descriptors(count);
        let rx = Self::alloc_descriptors(count);
        DmaDescriptorRing { byte_capacity: capacity, tx, rx }
    }

    fn alloc_descriptors(count: usize) -> (r: Vec<DmaDescriptor>)
        ensures
            r@.len() == count,
    {
        let mut v: Vec<DmaDescriptor> = Vec::new();
        let mut i: usize = 0;
        while i < count
            invariant
                i <= count,
                v@.len() == i,
            decreases count - i,
        {
            v.push(DmaDescriptor { owned_by_dma: false });
            i = i + 1;
        }
        v
    }

    /// The byte capacity the rings were sized for, read back.
    pub fn capacity_value(&self) -> (r: usize)
        ensures
            r == self.byte_capacity(),
    {
        self.byte_capacity
    }

    /// The number of transmit descriptors, read back.
    pub fn tx_len(&self) -> (r: usize)
        ensures
            r == self.tx_count(),
    {
        self.tx.len()
    }

    /// The number of receive descriptors, read back.
    pub fn rx_len(&self) -> (r: usize)
        ensures
            r == self.rx_count(),
    {
        self.rx.len()
    }

    /// Ring sizing is deterministic: two rings built for the same byte
    /// capacity hold the same number of descriptors, transmit and
    /// receive alike.
    pub proof fn lemma_sizing_deterministic(a: DmaDescriptorRing, b: DmaDescriptorRing)
        requires
            a.well_sized(),
            b.well_sized(),
            a.byte_capacity() == b.byte_capacity(),
        ensures
            a.tx_count() == b.tx_count(),
            a.rx_count() == b.rx_count(),
    {
    }
}

} // verus!
