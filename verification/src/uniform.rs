use vstd::pervasive::VecAdditionalExecFns;
use vstd::prelude::*;

verus! {

/// The host-visible uniform buffers: one buffer per presentable image, not
/// per frame slot, each sized to the uniform block.  Every frame the block
/// for the acquired image is rewritten in place by a plain byte copy, so a
/// write followed by a read of the same slot yields bit-identical bytes.
#[derive(Clone, Debug)]
pub struct UniformStore {
    pub buffers: Vec<Vec<u8>>,
    pub block_size: usize,
}

/// A copy of `src`, byte for byte.
pub fn copy_bytes(src: &Vec<u8>) -> (r: Vec<u8>)
    ensures
        r@ == src@,
{
    let mut out: Vec<u8> = Vec::new();
    let mut k: usize = 0;
    while k < src.len()
        invariant
            k <= src@.len(),
            out@ =~= src@.subrange(0, k as int),
        decreases src@.len() - k,
    {
        out.push(src[k]);
        k += 1;
    }
    proof {
        assert(out@ =~= src@);
    }
    out
}

impl UniformStore {
    /// Every buffer is sized to the uniform block.
    pub open spec fn wf(self) -> bool {
        forall|i: int|
            0 <= i < self.buffers@.len() ==> (#[trigger] self.buffers@[i])@.len()
                == self.block_size
    }

    /// The bytes each slot holds.
    pub open spec fn contents(self) -> Seq<Seq<u8>> {
        Seq::new(self.buffers@.len(), |i: int| self.buffers@[i]@)
    }

    /// One zeroed buffer per presentable image, each of `block_size` bytes.
    pub fn new(count: usize, block_size: usize) -> (r: UniformStore)
        ensures
            r.wf(),
            r.block_size == block_size,
            r.contents().len() == count,
            forall|i: int|
                0 <= i < count ==> (#[trigger] r.contents()[i]) =~= Seq::new(
                    block_size as nat,
                    |j: int| 0u8,
                ),
    {
        let mut buffers: Vec<Vec<u8>> = Vec::new();
        let mut k: usize = 0;
        while k < count
            invariant
                k <= count,
                buffers@.len() == k,
                forall|i: int|
                    0 <= i < k ==> (#[trigger] buffers@[i])@ =~= Seq::new(
                        block_size as nat,
                        |j: int| 0u8,
                    ),
            decreases count - k,
        {
            buffers.push(zero_block(block_size));
            k += 1;
        }
        UniformStore { buffers, block_size }
    }

    /// How many buffers the store holds.
    pub fn buffer_count(&self) -> (r: usize)
        ensures
            r == self.contents().len(),
    {
        self.buffers.len()
    }

    /// Write one uniform block into the slot for `image_index`, replacing its
    /// bytes with exactly the block's bytes.
    pub fn write(&mut self, image_index: usize, block: &Vec<u8>)
        requires
            old(self).wf(),
            image_index < old(self).contents().len(),
            block@.len() == old(self).block_size,
        ensures
            final(self).wf(),
            final(self).block_size == old(self).block_size,
            final(self).contents() =~= old(self).contents().update(image_index as int, block@),
    {
        let fresh = copy_bytes(block);
        self.buffers.set(image_index, fresh);
    }

    /// Read back the bytes the slot for `image_index` holds.
    pub fn read(&self, image_index: usize) -> (r: Vec<u8>)
        requires
            image_index < self.contents().len(),
        ensures
            r@ == self.contents()[image_index as int],
    {
        copy_bytes(&self.buffers[image_index])
    }
}

/// A zeroed block of `block_size` bytes.
fn zero_block(block_size: usize) -> (r: Vec<u8>)
    ensures
        r@ =~= Seq::new(block_size as nat, |j: int| 0u8),
{
    let mut out: Vec<u8> = Vec::new();
    let mut k: usize = 0;
    while k < block_size
        invariant
            k <= block_size,
            out@ =~= Seq::new(k as nat, |j: int| 0u8),
        decreases block_size - k,
    {
        out.push(0u8);
        k += 1;
    }
    out
}

/// Uniform-buffer round trip: writing a block into a slot and then reading
/// that slot yields exactly the written bytes, bit for bit.
pub proof fn lemma_uniform_round_trip(store: UniformStore, image_index: int, block: Seq<u8>)
    requires
        0 <= image_index < store.contents().len(),
    ensures
        store.contents().update(image_index, block)[image_index] == block,
{
}

} // verus!
