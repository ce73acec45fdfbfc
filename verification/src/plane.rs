use vstd::prelude::*;

verus! {

/// Largest pixel count (`width * height`) a plane can hold.
pub const MAX_SIZE: usize = 3000 * 3000;

/// Maximum pixel count supported by a `Plane`.
pub fn get_max_size() -> (r: usize)
    ensures
        r == MAX_SIZE,
        r == 9000000,
{
    MAX_SIZE
}

/// A freestanding build of this module would pin a panic handler that parks
/// the thread, since no runtime exists to unwind into. In a hosted build the
/// kernels' preconditions are explicit contracts and the verified code never
/// panics, so the handler has nothing left to do.
pub fn handle_panic() {
}

/// A single-channel, row-major pixel plane together with the scratch band
/// that the two-pass kernels use for the intermediate horizontal result.
/// Both buffers hold `MAX_SIZE` bytes for the lifetime of the value, so no
/// call allocates. The host reads and writes the primary buffer one byte at
/// a time; the scratch band is internal.
pub struct Plane {
    pub(crate) buffer: Vec<u8>,
    pub(crate) scratch: Vec<u8>,
}

impl Plane {
    /// The primary buffer's contents; the scratch band is not observable.
    pub closed spec fn view(&self) -> Seq<u8> {
        self.buffer@
    }

    /// Both bands hold exactly `MAX_SIZE` bytes.
    pub closed spec fn wf(&self) -> bool {
        &&& self.buffer@.len() == MAX_SIZE
        &&& self.scratch@.len() == MAX_SIZE
    }

    /// Relates the opaque view and well-formedness predicate to the two
    /// bands, for the kernels in the sibling modules.
    pub(crate) proof fn lemma_parts(&self)
        ensures
            self.wf() <==> (self.buffer@.len() == MAX_SIZE && self.scratch@.len() == MAX_SIZE),
            self@ == self.buffer@,
    {
    }

    /// A fresh plane: every sample of the primary buffer is zero.
    pub fn new() -> (p: Plane)
        ensures
            p.wf(),
            p@.len() == MAX_SIZE,
            forall|k: int| 0 <= k < MAX_SIZE ==> p@[k] == 0u8,
    {
        let buffer = zero_band();
        let scratch = zero_band();
        Plane { buffer, scratch }
    }

    /// Read one sample of the primary buffer.
    pub fn read_pixel(&self, i: usize) -> (v: u8)
        requires
            self.wf(),
            i < MAX_SIZE,
        ensures
            v == self@[i as int],
    {
        self.buffer[i]
    }

    /// Write one sample of the primary buffer.
    pub fn write_pixel(&mut self, i: usize, v: u8)
        requires
            old(self).wf(),
            i < MAX_SIZE,
        ensures
            final(self).wf(),
            final(self)@ == old(self)@.update(i as int, v),
    {
        self.buffer.set(i, v);
    }
}

fn zero_band() -> (v: Vec<u8>)
    ensures
        v@.len() == MAX_SIZE,
        forall|k: int| 0 <= k < MAX_SIZE ==> v@[k] == 0u8,
{
    let mut v: Vec<u8> = Vec::new();
    let mut i: usize = 0;
    while i < MAX_SIZE
        invariant
            i <= MAX_SIZE,
            v@.len() == i,
            forall|k: int| 0 <= k < i ==> v@[k] == 0u8,
        decreases MAX_SIZE - i,
    {
        v.push(0u8);
        i = i + 1;
    }
    v
}

} // verus!
