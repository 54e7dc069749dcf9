//! The proof-of-work block import filter, the chain of accepted blocks
//! behind it, and the inherent-data check of the import pipeline.

use vstd::prelude::*;
use crate::seal::{
    Header, HeaderView, sha3_256, sha3_256_of, le_bytes, pre_seal_bytes, seal_valid,
    difficulty_for, push_bytes, push_le_u64, encode_pre_seal, verify_seal, compute_difficulty,
};

verus! {

/// Why a block was turned away. None of these is fatal to the node.
#[derive(Clone, Copy, Debug, PartialEq, Eq, Structural)]
pub enum RejectReason {
    /// The parent is not among the accepted blocks.
    UnknownParent,
    /// The stated target is not the one derived from the parent: stale or forged.
    DifficultyMismatch,
    /// The seal is missing or does not meet the stated target.
    InvalidProofOfWork,
    /// The runtime refused the block body.
    RuntimeRejected,
    /// The parent has been superseded as best tip.
    StaleParent,
    /// The block's inherent data failed its sanity check.
    InherentCheckFailed,
}

/// The outcome of importing one block.
#[derive(Clone, Copy, Debug, PartialEq, Eq, Structural)]
pub enum Verdict {
    Accepted,
    Rejected(RejectReason),
}

/// How far ahead of the local clock a block's timestamp may be, in milliseconds.
pub const MAX_TIMESTAMP_DRIFT_MILLIS: u64 = 60_000;

/// The seal part of a header's encoding.
pub open spec fn seal_bytes(seal: Option<u64>) -> Seq<u8> {
    match seal {
        Some(n) => seq![1u8] + le_bytes(n),
        None => seq![0u8],
    }
}

/// The hash that identifies a block: over every field, seal included.
pub open spec fn block_hash(h: HeaderView) -> Seq<u8> {
    sha3_256_of(pre_seal_bytes(h, h.difficulty) + seal_bytes(h.seal))
}

/// Index of the latest block of `c` whose hash is `parent`.
pub open spec fn find_parent(c: Seq<HeaderView>, parent: Seq<u8>) -> Option<int>
    decreases c.len(),
{
    if c.len() == 0 {
        None
    } else if block_hash(c.last()) == parent {
        Some(c.len() - 1)
    } else {
        find_parent(c.drop_last(), parent)
    }
}

pub proof fn lemma_find_parent_found(c: Seq<HeaderView>, parent: Seq<u8>)
    ensures
        find_parent(c, parent) matches Some(i) ==> 0 <= i < c.len() && block_hash(c[i]) == parent,
    decreases c.len(),
{
    if c.len() > 0 && block_hash(c.last()) != parent {
        lemma_find_parent_found(c.drop_last(), parent);
    }
}

/// Importing a block that was accepted a second time accepts it again and
/// leaves the chain as the first import left it.
pub proof fn lemma_import_idempotent(c: Seq<HeaderView>, h: HeaderView, runtime_ok: bool)
    requires
        import_verdict(c, h, runtime_ok) == Verdict::Accepted,
    ensures
        import_verdict(chain_after(c, h, runtime_ok), h, runtime_ok) == Verdict::Accepted,
        chain_after(chain_after(c, h, runtime_ok), h, runtime_ok) == chain_after(c, h, runtime_ok),
{
    if !c.contains(h) {
        let c1 = c.push(h);
        assert(c1.drop_last() =~= c);
        assert(c1.last() == h);
        assert(c1[c.len() as int] == h);
        assert(c1.contains(h));
        if block_hash(h) != h.parent {
            lemma_find_parent_found(c, h.parent);
            let i = find_parent(c, h.parent)->0;
            assert(c1[i] == c[i]);
        }
    }
}

/// A new block built on an accepted block that is no longer the best tip
/// is turned away as stale, and the chain is left as it was.
pub proof fn lemma_stale_parent_rejected(c: Seq<HeaderView>, h: HeaderView, runtime_ok: bool)
    requires
        find_parent(c, h.parent) matches Some(i) && i != c.len() - 1,
        pow_checks(c, h) is None,
        runtime_ok,
        !c.contains(h),
    ensures
        import_verdict(c, h, runtime_ok) == Verdict::Rejected(RejectReason::StaleParent),
        chain_after(c, h, runtime_ok) == c,
{
}

/// A block whose stated target is not the one derived from its parent is
/// never accepted, whatever its seal, and the chain is left as it was.
pub proof fn lemma_foreign_target_rejected(c: Seq<HeaderView>, h: HeaderView, runtime_ok: bool)
    requires
        find_parent(c, h.parent) matches Some(i) && h.difficulty != difficulty_for(c[i]),
    ensures
        import_verdict(c, h, runtime_ok) == Verdict::Rejected(RejectReason::DifficultyMismatch),
        chain_after(c, h, runtime_ok) == c,
{
}

/// `child` extends `parent` as the filter demands.
pub open spec fn links(parent: HeaderView, child: HeaderView) -> bool {
    &&& child.parent == block_hash(parent)
    &&& child.difficulty == difficulty_for(parent)
    &&& seal_valid(child)
}

/// The checks of the filter proper, before the inner authority: a known
/// parent, the derived target, a valid seal.
pub open spec fn pow_checks(c: Seq<HeaderView>, h: HeaderView) -> Option<RejectReason> {
    match find_parent(c, h.parent) {
        None => Some(RejectReason::UnknownParent),
        Some(i) => if h.difficulty != difficulty_for(c[i]) {
            Some(RejectReason::DifficultyMismatch)
        } else if !seal_valid(h) {
            Some(RejectReason::InvalidProofOfWork)
        } else {
            None
        },
    }
}

/// The verdict on `h` for chain `c`, where `runtime_ok` is the runtime's
/// own verdict on the block body.
pub open spec fn import_verdict(c: Seq<HeaderView>, h: HeaderView, runtime_ok: bool) -> Verdict {
    match pow_checks(c, h) {
        Some(reason) => Verdict::Rejected(reason),
        None => if !runtime_ok {
            Verdict::Rejected(RejectReason::RuntimeRejected)
        } else if c.contains(h) {
            Verdict::Accepted
        } else if find_parent(c, h.parent) == Some(c.len() - 1) {
            Verdict::Accepted
        } else {
            Verdict::Rejected(RejectReason::StaleParent)
        },
    }
}

/// The chain after importing `h`: extended by it only when it is accepted
/// and new.
pub open spec fn chain_after(c: Seq<HeaderView>, h: HeaderView, runtime_ok: bool) -> Seq<HeaderView> {
    if import_verdict(c, h, runtime_ok) == Verdict::Accepted && !c.contains(h) {
        c.push(h)
    } else {
        c
    }
}

/// The accepted chain, genesis first; its last block is the best tip.
pub struct Chain {
    headers: Vec<Header>,
}

impl View for Chain {
    type V = Seq<HeaderView>;

    closed spec fn view(&self) -> Seq<HeaderView> {
        self.headers@.map_values(|h: Header| h@)
    }
}

impl Chain {
    /// A chain holds its genesis, and each later block extends the one before.
    pub open spec fn wf(&self) -> bool {
        &&& self@.len() > 0
        &&& forall|i: int| 0 < i < self@.len() ==> links(#[trigger] self@[i - 1], self@[i])
    }

    /// A chain of the genesis block alone.
    pub fn new(genesis: &Header) -> (r: Chain)
        ensures
            r@ == seq![genesis@],
            r.wf(),
    {
        let mut headers: Vec<Header> = Vec::new();
        headers.push(copy_header(genesis));
        let r = Chain { headers };
        assert(r@ =~= seq![genesis@]);
        r
    }

    pub fn len(&self) -> (r: usize)
        ensures
            r == self@.len(),
    {
        self.headers.len()
    }

    /// The current best tip.
    pub fn best_tip(&self) -> (r: &Header)
        requires
            self.wf(),
        ensures
            r@ == self@.last(),
    {
        &self.headers[self.headers.len() - 1]
    }

    /// Index of the latest block whose hash is `parent`.
    fn find_parent_index(&self, parent: &Vec<u8>) -> (r: Option<usize>)
        ensures
            r matches Some(i) ==> find_parent(self@, parent@) == Some(i as int) && i < self@.len(),
            r is None ==> find_parent(self@, parent@) is None,
    {
        let mut i: usize = self.headers.len();
        assert(self@.take(i as int) =~= self@);
        while i > 0
            invariant
                i <= self@.len(),
                self@.len() == self.headers@.len(),
                find_parent(self@, parent@) == find_parent(self@.take(i as int), parent@),
            decreases i,
        {
            let h = block_hash_of(&self.headers[i - 1]);
            proof {
                let t = self@.take(i as int);
                assert(t.drop_last() =~= self@.take(i - 1));
                assert(t.last() == self@[i - 1]);
            }
            if bytes_eq(&h, parent) {
                assert(self@.len() == self.headers@.len());
                return Some(i - 1);
            }
            i = i - 1;
        }
        assert(self@.take(0) =~= Seq::<HeaderView>::empty());
        None
    }

    /// Whether `h` is already accepted.
    fn contains(&self, h: &Header) -> (r: bool)
        ensures
            r == self@.contains(h@),
    {
        let mut i: usize = 0;
        while i < self.headers.len()
            invariant
                i <= self@.len(),
                self@.len() == self.headers@.len(),
                forall|j: int| 0 <= j < i ==> self@[j] != h@,
            decreases self@.len() - i,
        {
            if same_header(&self.headers[i], h) {
                assert(self@[i as int] == h@);
                return true;
            }
            i = i + 1;
        }
        false
    }

    /// The import filter: checks, in order, that the parent is accepted,
    /// that the stated target is the one derived from the parent and that
    /// the seal meets it; then hands the block to the inner authority, whose
    /// runtime verdict is `runtime_ok`. That authority accepts a block it
    /// already holds again without storing it twice, extends the best tip,
    /// and turns away a block built on a superseded tip.
    pub fn import_block(&mut self, h: &Header, runtime_ok: bool) -> (v: Verdict)
        requires
            old(self).wf(),
        ensures
            v == import_verdict(old(self)@, h@, runtime_ok),
            final(self)@ == chain_after(old(self)@, h@, runtime_ok),
            final(self).wf(),
    {
        let parent_index = match self.find_parent_index(&h.parent) {
            Some(i) => i,
            None => return Verdict::Rejected(RejectReason::UnknownParent),
        };
        assert(self@.len() == self.headers@.len());
        if h.difficulty != compute_difficulty(&self.headers[parent_index]) {
            return Verdict::Rejected(RejectReason::DifficultyMismatch);
        }
        if !verify_seal(h) {
            return Verdict::Rejected(RejectReason::InvalidProofOfWork);
        }
        if !runtime_ok {
            return Verdict::Rejected(RejectReason::RuntimeRejected);
        }
        if self.contains(h) {
            return Verdict::Accepted;
        }
        proof {
            lemma_find_parent_found(self@, h@.parent);
        }
        if parent_index == self.headers.len() - 1 {
            let ghost before = self@;
            self.headers.push(copy_header(h));
            proof {
                assert(self@ =~= before.push(h@));
                assert forall|i: int| 0 < i < self@.len() implies links(#[trigger] self@[i - 1], self@[i]) by {
                    if i < before.len() {
                        assert(self@[i - 1] == before[i - 1] && self@[i] == before[i]);
                    } else {
                        assert(self@[i - 1] == before[parent_index as int]);
                    }
                }
            }
            Verdict::Accepted
        } else {
            Verdict::Rejected(RejectReason::StaleParent)
        }
    }

    /// The import pipeline's handling of one inbound block: its timestamp
    /// (milliseconds) may lie at most the allowed drift ahead of the local
    /// clock `now`; a block that passes goes through the import filter.
    pub fn import_incoming(&mut self, h: &Header, timestamp: u64, now: u64, runtime_ok: bool) -> (v: Verdict)
        requires
            old(self).wf(),
        ensures
            !timestamp_acceptable(timestamp, now) ==> {
                &&& v == Verdict::Rejected(RejectReason::InherentCheckFailed)
                &&& final(self)@ == old(self)@
            },
            timestamp_acceptable(timestamp, now) ==> {
                &&& v == import_verdict(old(self)@, h@, runtime_ok)
                &&& final(self)@ == chain_after(old(self)@, h@, runtime_ok)
            },
            final(self).wf(),
    {
        if timestamp > now && timestamp - now > MAX_TIMESTAMP_DRIFT_MILLIS {
            return Verdict::Rejected(RejectReason::InherentCheckFailed);
        }
        self.import_block(h, runtime_ok)
    }
}

/// A block timestamp is acceptable when it is not further ahead of the
/// local clock than the allowed drift.
pub open spec fn timestamp_acceptable(timestamp: u64, now: u64) -> bool {
    timestamp as int <= now as int + MAX_TIMESTAMP_DRIFT_MILLIS as int
}

/// The hash that identifies `h`.
pub fn block_hash_of(h: &Header) -> (r: Vec<u8>)
    ensures
        r@ == block_hash(h@),
{
    let mut bytes = encode_pre_seal(h, h.difficulty);
    match h.seal {
        Some(n) => {
            bytes.push(1u8);
            push_le_u64(&mut bytes, n);
        },
        None => {
            bytes.push(0u8);
        },
    }
    proof {
        assert(bytes@ =~= pre_seal_bytes(h@, h.difficulty) + seal_bytes(h.seal));
    }
    sha3_256(bytes.as_slice())
}

fn bytes_eq(a: &Vec<u8>, b: &Vec<u8>) -> (r: bool)
    ensures
        r == (a@ == b@),
{
    if a.len() != b.len() {
        return false;
    }
    let mut i: usize = 0;
    while i < a.len()
        invariant
            i <= a@.len(),
            a@.len() == b@.len(),
            forall|j: int| 0 <= j < i ==> a@[j] == b@[j],
        decreases a@.len() - i,
    {
        if a[i] != b[i] {
            return false;
        }
        i = i + 1;
    }
    assert(a@ =~= b@);
    true
}

fn same_header(a: &Header, b: &Header) -> (r: bool)
    ensures
        r == (a@ == b@),
{
    bytes_eq(&a.parent, &b.parent) && a.number == b.number && a.difficulty == b.difficulty
        && bytes_eq(&a.body_root, &b.body_root) && a.seal == b.seal
}

pub(crate) fn copy_bytes(v: &Vec<u8>) -> (r: Vec<u8>)
    ensures
        r@ == v@,
{
    let mut out: Vec<u8> = Vec::new();
    push_bytes(&mut out, v.as_slice());
    assert(out@ =~= v@);
    out
}

/// A copy of `h`, field by field.
pub fn copy_header(h: &Header) -> (r: Header)
    ensures
        r@ == h@,
{
    Header {
        parent: copy_bytes(&h.parent),
        number: h.number,
        difficulty: h.difficulty,
        body_root: copy_bytes(&h.body_root),
        seal: h.seal,
    }
}

} // verus!
