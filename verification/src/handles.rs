use vstd::pervasive::VecAdditionalExecFns;
use vstd::prelude::*;

verus! {

/// Tracks every handle the renderer acquires from the graphics API and the
/// order they are released in.  Handles are numbered in creation order; the
/// release log records each release.  Teardown must release every owned
/// handle exactly once — no leaks, no double frees — and in the reverse of
/// creation order.
#[derive(Clone, Debug)]
pub struct HandleRegistry {
    /// `live[h]` is whether handle `h` is still owned.
    pub live: Vec<bool>,
    /// The handles released so far, in release order.
    pub release_log: Vec<usize>,
}

impl HandleRegistry {
    /// The release log is truthful: it names only handles that exist and are
    /// no longer live, it names no handle twice, and it names every handle
    /// that is no longer live.
    pub open spec fn wf(self) -> bool {
        &&& forall|i: int|
            0 <= i < self.release_log@.len() ==> (#[trigger] self.release_log@[i])
                < self.live@.len()
        &&& forall|i: int|
            0 <= i < self.release_log@.len() ==> !self.live@[#[trigger] self.release_log@[i] as int]
        &&& forall|i: int, j: int|
            0 <= i < j < self.release_log@.len() ==> self.release_log@[i] != self.release_log@[j]
        &&& forall|h: int|
            0 <= h < self.live@.len() && !(#[trigger] self.live@[h]) ==> self.release_log@.contains(
                h as usize,
            )
    }

    /// Every handle ever created has been released.
    pub open spec fn all_released(self) -> bool {
        forall|h: int| 0 <= h < self.live@.len() ==> !(#[trigger] self.live@[h])
    }

    /// A registry that owns nothing yet.
    pub fn new() -> (r: HandleRegistry)
        ensures
            r.wf(),
            r.live@.len() == 0,
            r.release_log@.len() == 0,
    {
        HandleRegistry { live: Vec::new(), release_log: Vec::new() }
    }

    /// Record one acquired handle; its number is the count of handles created
    /// before it.
    pub fn register(&mut self) -> (h: usize)
        requires
            old(self).wf(),
        ensures
            final(self).wf(),
            h == old(self).live@.len(),
            final(self).live@ =~= old(self).live@.push(true),
            final(self).release_log@ == old(self).release_log@,
    {
        let h = self.live.len();
        self.live.push(true);
        h
    }

    /// Release one live handle.  Releasing a handle that is not live would be
    /// a double free; the contract forbids it.
    pub fn release(&mut self, h: usize)
        requires
            old(self).wf(),
            h < old(self).live@.len(),
            old(self).live@[h as int],
        ensures
            final(self).wf(),
            final(self).live@ =~= old(self).live@.update(h as int, false),
            final(self).release_log@ =~= old(self).release_log@.push(h),
    {
        self.live.set(h, false);
        self.release_log.push(h);
        proof {
            assert forall|i: int|
                0 <= i < self.release_log@.len() && !(self.release_log@[i]
                    == h) implies !self.live@[#[trigger] self.release_log@[i] as int] by {
                assert(old(self).release_log@[i] == self.release_log@[i]);
            }
            assert forall|h2: int|
                0 <= h2 < self.live@.len() && !(#[trigger] self.live@[h2]) implies self
                .release_log@.contains(h2 as usize) by {
                if h2 == h as int {
                    assert(self.release_log@[self.release_log@.len() - 1] == h);
                } else {
                    assert(!old(self).live@[h2]);
                    let i = choose|i: int|
                        0 <= i < old(self).release_log@.len() && old(self).release_log@[i] == (
                        h2 as usize);
                    assert(self.release_log@[i] == h2 as usize);
                }
            }
        }
    }

    /// Release every handle still owned, in the reverse of creation order.
    /// Afterwards nothing is owned (no leaks), every handle appears in the
    /// release log, and the handles released here appear in strictly
    /// descending creation order after the log as it stood.
    pub fn release_all(&mut self)
        requires
            old(self).wf(),
        ensures
            final(self).wf(),
            final(self).all_released(),
            final(self).live@.len() == old(self).live@.len(),
            old(self).release_log@.len() <= final(self).release_log@.len(),
            forall|i: int|
                0 <= i < old(self).release_log@.len() ==> final(self).release_log@[i]
                    == old(self).release_log@[i],
            forall|h: int|
                0 <= h < old(self).live@.len() ==> #[trigger] final(self).release_log@.contains(
                    h as usize,
                ),
            forall|i: int, j: int|
                old(self).release_log@.len() <= i < j < final(self).release_log@.len()
                    ==> final(self).release_log@[i] > final(self).release_log@[j],
    {
        let ghost old_log = self.release_log@;
        let ghost old_log_len = self.release_log@.len();
        let ghost old_live = self.live@;
        let mut k: usize = self.live.len();
        while k > 0
            invariant
                self.wf(),
                k <= self.live@.len(),
                self.live@.len() == old_live.len(),
                old_log_len <= self.release_log@.len(),
                forall|h: int| k <= h < self.live@.len() ==> !(#[trigger] self.live@[h]),
                forall|h: int| 0 <= h < k ==> self.live@[h] == old_live[h],
                forall|i: int| 0 <= i < old_log_len ==> self.release_log@[i] == old_log[i],
                forall|i: int|
                    old_log_len <= i < self.release_log@.len() ==> k <= (
                    #[trigger] self.release_log@[i]) as int,
                forall|i: int, j: int|
                    old_log_len <= i < j < self.release_log@.len() ==> self.release_log@[i]
                        > self.release_log@[j],
            decreases k,
        {
            k -= 1;
            if self.live[k] {
                self.release(k);
            }
        }
        proof {
            assert forall|h: int|
                0 <= h < self.live@.len() implies #[trigger] self.release_log@.contains(
                h as usize,
            ) by {
                assert(!self.live@[h]);
            }
        }
    }
}

/// No double free: a well-formed registry's release log names each handle at
/// most once, so no release sequence the registry admits frees a handle
/// twice.
pub proof fn lemma_no_double_free(r: HandleRegistry)
    requires
        r.wf(),
    ensures
        forall|i: int, j: int|
            0 <= i < j < r.release_log@.len() ==> r.release_log@[i] != r.release_log@[j],
{
}

} // verus!
