//! An in-memory model of the durable store the finalizer writes to: deploys
//! and blocks keyed by content hash, with at most one copy per hash. An
//! insert reports whether it was novel; a resubmission is not an error.

use vstd::prelude::*;

use crate::deploy::Deploy;

verus! {

/// A block, reduced to its content hash.
#[derive(Clone, Copy, Debug, PartialEq, Eq, Structural)]
pub struct Block {
    pub hash: u64,
}

/// A request to the store, as scheduled on the node's event queue.
#[derive(Debug, PartialEq, Eq)]
pub enum StorageRequest {
    PutBlock { block: Block },
    PutDeploy { deploy: Deploy },
}

/// The deploy stored under `h`, searching the newest entry first.
pub open spec fn find_deploy(s: Seq<Deploy>, h: u64) -> Option<Deploy>
    decreases s.len(),
{
    if s.len() == 0 {
        None
    } else if s.last().hash == h {
        Some(s.last())
    } else {
        find_deploy(s.drop_last(), h)
    }
}

/// When nothing is stored under `h`, no entry carries that hash, and the
/// other way round.
pub proof fn lemma_find_deploy_none(s: Seq<Deploy>, h: u64)
    ensures
        find_deploy(s, h) is None <==> (forall|i: int| 0 <= i < s.len() ==> s[i].hash != h),
    decreases s.len(),
{
    if s.len() > 0 {
        lemma_find_deploy_none(s.drop_last(), h);
        assert(forall|i: int| 0 <= i < s.len() - 1 ==> s.drop_last()[i] == s[i]);
        assert(s.last() == s[s.len() - 1]);
    }
}

/// The content-addressed store.
pub struct Storage {
    deploys: Vec<Deploy>,
    blocks: Vec<Block>,
}

impl Storage {
    /// The stored deploys, newest last.
    pub closed spec fn deploys_view(self) -> Seq<Deploy> {
        self.deploys@
    }

    /// The stored blocks, newest last.
    pub closed spec fn blocks_view(self) -> Seq<Block> {
        self.blocks@
    }

    /// At most one stored copy per content hash.
    pub open spec fn wf(self) -> bool {
        (forall|i: int, j: int|
            0 <= i < j < self.deploys_view().len()
                ==> self.deploys_view()[i].hash != self.deploys_view()[j].hash)
        && (forall|i: int, j: int|
            0 <= i < j < self.blocks_view().len()
                ==> self.blocks_view()[i].hash != self.blocks_view()[j].hash)
    }

    /// Whether a deploy is stored under `h`.
    pub open spec fn contains_deploy(self, h: u64) -> bool {
        find_deploy(self.deploys_view(), h) is Some
    }

    /// Whether a block is stored under `h`.
    pub open spec fn contains_block(self, h: u64) -> bool {
        exists|i: int| 0 <= i < self.blocks_view().len() && self.blocks_view()[i].hash == h
    }

    /// An empty store.
    pub fn new() -> (r: Storage)
        ensures
            r.deploys_view() =~= Seq::<Deploy>::empty(),
            r.blocks_view() =~= Seq::<Block>::empty(),
            r.wf(),
    {
        Storage { deploys: Vec::new(), blocks: Vec::new() }
    }

    /// Whether a deploy is stored under `h`.
    pub fn has_deploy(&self, h: u64) -> (r: bool)
        ensures
            r == self.contains_deploy(h),
    {
        let mut i: usize = self.deploys.len();
        proof {
            assert(self.deploys@.take(self.deploys@.len() as int) =~= self.deploys@);
        }
        while i > 0
            invariant
                i <= self.deploys@.len(),
                find_deploy(self.deploys@, h) == find_deploy(self.deploys@.take(i as int), h),
            decreases i,
        {
            let j = i - 1;
            proof {
                assert(self.deploys@.take(i as int).drop_last() =~= self.deploys@.take(j as int));
                assert(self.deploys@.take(i as int).last() == self.deploys@[j as int]);
            }
            if self.deploys[j].hash == h {
                return true;
            }
            i = j;
        }
        false
    }

    /// Puts a deploy, keyed by its content hash; reports whether the insert
    /// was novel. Putting an already-stored hash changes nothing.
    pub fn put_deploy(&mut self, deploy: Deploy) -> (is_new: bool)
        requires
            old(self).wf(),
        ensures
            final(self).wf(),
            is_new == !old(self).contains_deploy(deploy.hash),
            is_new ==> final(self).deploys_view() =~= old(self).deploys_view().push(deploy),
            !is_new ==> final(self).deploys_view() =~= old(self).deploys_view(),
            final(self).blocks_view() =~= old(self).blocks_view(),
            is_new ==> find_deploy(final(self).deploys_view(), deploy.hash) == Some(deploy),
            final(self).contains_deploy(deploy.hash),
    {
        if self.has_deploy(deploy.hash) {
            false
        } else {
            self.deploys.push(deploy);
            proof {
                lemma_find_deploy_none(old(self).deploys_view(), deploy.hash);
                let olds = old(self).deploys_view();
                assert(self.deploys_view() =~= olds.push(deploy));
                assert(self.deploys_view().drop_last() =~= olds);
                assert(self.deploys_view().last() == deploy);
                assert forall|i: int, j: int|
                    0 <= i < j < self.deploys_view().len() implies self.deploys_view()[i].hash
                    != self.deploys_view()[j].hash by {
                    if j == self.deploys_view().len() - 1 {
                        assert(self.deploys_view()[i] == olds[i]);
                        assert(olds[i].hash != deploy.hash);
                    } else {
                        assert(self.deploys_view()[i] == olds[i]);
                        assert(self.deploys_view()[j] == olds[j]);
                    }
                }
                assert(self.blocks_view() =~= old(self).blocks_view());
            }
            true
        }
    }

    /// Retrieves the deploy stored under `h`, if any.
    pub fn get_deploy_by_hash(&self, h: u64) -> (r: Option<&Deploy>)
        ensures
            r is Some <==> self.contains_deploy(h),
            r is Some ==> Some(*r.unwrap()) == find_deploy(self.deploys_view(), h),
    {
        let mut i: usize = self.deploys.len();
        proof {
            assert(self.deploys@.take(self.deploys@.len() as int) =~= self.deploys@);
        }
        while i > 0
            invariant
                i <= self.deploys@.len(),
                find_deploy(self.deploys@, h) == find_deploy(self.deploys@.take(i as int), h),
            decreases i,
        {
            let j = i - 1;
            proof {
                assert(self.deploys@.take(i as int).drop_last() =~= self.deploys@.take(j as int));
                assert(self.deploys@.take(i as int).last() == self.deploys@[j as int]);
            }
            if self.deploys[j].hash == h {
                return Some(&self.deploys[j]);
            }
            i = j;
        }
        None
    }

    /// Puts a block, keyed by its content hash; reports whether the insert
    /// was novel.
    pub fn put_block(&mut self, block: Block) -> (is_new: bool)
        requires
            old(self).wf(),
        ensures
            final(self).wf(),
            is_new == !old(self).contains_block(block.hash),
            is_new ==> final(self).blocks_view() =~= old(self).blocks_view().push(block),
            !is_new ==> final(self).blocks_view() =~= old(self).blocks_view(),
            final(self).deploys_view() =~= old(self).deploys_view(),
            final(self).contains_block(block.hash),
    {
        let mut i: usize = 0;
        while i < self.blocks.len()
            invariant
                i <= self.blocks@.len(),
                *self == *old(self),
                old(self).wf(),
                forall|k: int| 0 <= k < i ==> old(self).blocks_view()[k].hash != block.hash,
            decreases self.blocks@.len() - i,
        {
            if self.blocks[i].hash == block.hash {
                proof {
                    assert(old(self).contains_block(block.hash)) by {
                        assert(old(self).blocks_view()[i as int].hash == block.hash);
                    }
                }
                return false;
            }
            i = i + 1;
        }
        proof {
            assert(!old(self).contains_block(block.hash));
        }
        self.blocks.push(block);
        proof {
            let olds = old(self).blocks_view();
            assert(self.blocks_view() =~= olds.push(block));
            assert forall|i: int, j: int|
                0 <= i < j < self.blocks_view().len() implies self.blocks_view()[i].hash
                != self.blocks_view()[j].hash by {
                if j == self.blocks_view().len() - 1 {
                    assert(self.blocks_view()[i] == olds[i]);
                    assert(olds[i].hash != block.hash);
                } else {
                    assert(self.blocks_view()[i] == olds[i]);
                    assert(self.blocks_view()[j] == olds[j]);
                }
            }
            assert(self.deploys_view() =~= old(self).deploys_view());
            assert(self.contains_block(block.hash)) by {
                assert(self.blocks_view()[self.blocks_view().len() - 1].hash == block.hash);
            }
        }
        true
    }
}

/// Builds the storage request that schedules a block write.
pub fn put_block_to_storage(block: Block) -> (r: StorageRequest)
    ensures
        r == (StorageRequest::PutBlock { block }),
{
    StorageRequest::PutBlock { block }
}

/// Builds the storage request that schedules a deploy write.
pub fn put_deploy_to_storage(deploy: Deploy) -> (r: StorageRequest)
    ensures
        r == (StorageRequest::PutDeploy { deploy }),
{
    StorageRequest::PutDeploy { deploy }
}

} // verus!
