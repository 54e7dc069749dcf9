//! The difficulty and seal algorithm: a mining hash over the header's
//! pre-seal fields and a nonce, compared against the header's target.

use vstd::prelude::*;

verus! {

/// A block header. `seal` is empty on an unsealed candidate.
#[derive(Clone, Debug)]
pub struct Header {
    /// Hash of the parent block.
    pub parent: Vec<u8>,
    /// Height of the block.
    pub number: u64,
    /// The target that the seal's work value must not exceed.
    pub difficulty: u64,
    /// Commitment to the (opaque) block body.
    pub body_root: Vec<u8>,
    /// The nonce that seals the header, if any.
    pub seal: Option<u64>,
}

/// Mathematical view of a [`Header`].
pub struct HeaderView {
    pub parent: Seq<u8>,
    pub number: u64,
    pub difficulty: u64,
    pub body_root: Seq<u8>,
    pub seal: Option<u64>,
}

impl View for Header {
    type V = HeaderView;

    open spec fn view(&self) -> HeaderView {
        HeaderView {
            parent: self.parent@,
            number: self.number,
            difficulty: self.difficulty,
            body_root: self.body_root@,
            seal: self.seal,
        }
    }
}

/// What SHA3-256 gives on a byte string.
pub uninterp spec fn sha3_256_of(data: Seq<u8>) -> Seq<u8>;

/// Relies on `sha3::Sha3_256` through `digest::Digest::digest`: the SHA3-256
/// digest of the bytes, 32 bytes long.
#[verifier::external_body]
pub(crate) fn sha3_256(data: &[u8]) -> (r: Vec<u8>)
    ensures
        r@ == sha3_256_of(data@),
        r@.len() == 32,
{
    <sha3::Sha3_256 as sha3::Digest>::digest(data).to_vec()
}

/// Eight bytes, least significant first.
pub open spec fn le_bytes(x: u64) -> Seq<u8> {
    seq![
        x as u8,
        (x >> 8u64) as u8,
        (x >> 16u64) as u8,
        (x >> 24u64) as u8,
        (x >> 32u64) as u8,
        (x >> 40u64) as u8,
        (x >> 48u64) as u8,
        (x >> 56u64) as u8,
    ]
}

/// The bytes of a header that the seal covers, with the given target.
pub open spec fn pre_seal_bytes(h: HeaderView, difficulty: u64) -> Seq<u8> {
    h.parent + le_bytes(h.number) + le_bytes(difficulty) + h.body_root
}

/// Hash of the sealed fields: what a nonce is searched against.
pub open spec fn pre_hash(h: HeaderView, difficulty: u64) -> Seq<u8> {
    sha3_256_of(pre_seal_bytes(h, difficulty))
}

/// The mining hash of a pre-hash and a nonce.
pub open spec fn work_hash(pre: Seq<u8>, nonce: u64) -> Seq<u8> {
    sha3_256_of(pre + le_bytes(nonce))
}

/// Big-endian value of a byte string.
pub open spec fn be_value(s: Seq<u8>) -> nat
    decreases s.len(),
{
    if s.len() == 0 {
        0
    } else {
        be_value(s.drop_last()) * 256 + s.last() as nat
    }
}

pub open spec fn pow256(n: nat) -> nat
    decreases n,
{
    if n == 0 {
        1
    } else {
        256 * pow256((n - 1) as nat)
    }
}

/// The work value of a mining hash: its first eight bytes, big-endian.
pub open spec fn work_value(hash: Seq<u8>) -> nat {
    be_value(hash.take(8))
}

/// A nonce solves a header for a target when the work value of its mining
/// hash does not exceed the target (a lower target is harder).
pub open spec fn nonce_solves(h: HeaderView, difficulty: u64, nonce: u64) -> bool {
    solves_pre_hash(pre_hash(h, difficulty), difficulty, nonce)
}

/// A header is validly sealed when it carries a nonce that solves it for
/// its own stated target.
pub open spec fn seal_valid(h: HeaderView) -> bool {
    match h.seal {
        Some(nonce) => nonce_solves(h, h.difficulty, nonce),
        None => false,
    }
}

/// The target of a child of `parent`: the chain keeps its parent's target.
pub open spec fn difficulty_for(parent: HeaderView) -> u64 {
    parent.difficulty
}

/// `h` with the given target and seal, every other field kept.
pub open spec fn sealed_with(h: HeaderView, difficulty: u64, nonce: u64) -> HeaderView {
    HeaderView { difficulty, seal: Some(nonce), ..h }
}

/// The target derived for a child depends on the parent alone: two
/// derivations from the same parent agree.
pub proof fn lemma_difficulty_deterministic(p1: HeaderView, p2: HeaderView)
    requires
        p1 == p2,
    ensures
        difficulty_for(p1) == difficulty_for(p2),
{
}

/// A seal's validity is the validity of its nonce against the header's
/// own target, over the fields that the seal covers: a header with no seal
/// is never valid, and one with a nonce is valid exactly when that nonce
/// solves it.
pub proof fn lemma_seal_valid_iff_nonce_solves(h: HeaderView, nonce: u64)
    ensures
        h.seal is None ==> !seal_valid(h),
        h.seal == Some(nonce) ==> (seal_valid(h) <==> work_value(
            work_hash(sha3_256_of(pre_seal_bytes(h, h.difficulty)), nonce),
        ) <= h.difficulty as nat),
{
}

proof fn lemma_be_value_bound(s: Seq<u8>)
    ensures
        be_value(s) < pow256(s.len()),
    decreases s.len(),
{
    if s.len() > 0 {
        lemma_be_value_bound(s.drop_last());
        let v = be_value(s.drop_last());
        let p = pow256(s.drop_last().len());
        assert(v * 256 + (s.last() as nat) < 256 * p) by (nonlinear_arith)
            requires
                v < p,
                s.last() < 256,
        ;
    }
}

pub(crate) fn push_bytes(out: &mut Vec<u8>, s: &[u8])
    ensures
        final(out)@ == old(out)@ + s@,
{
    let mut i: usize = 0;
    while i < s.len()
        invariant
            i <= s@.len(),
            out@ == old(out)@ + s@.take(i as int),
        decreases s@.len() - i,
    {
        out.push(s[i]);
        i = i + 1;
        assert(s@.take(i as int) == s@.take(i - 1) + seq![s@[i - 1]]);
    }
    assert(s@.take(s@.len() as int) == s@);
}

pub(crate) fn push_le_u64(out: &mut Vec<u8>, x: u64)
    ensures
        final(out)@ == old(out)@ + le_bytes(x),
{
    out.push(x as u8);
    out.push((x >> 8u64) as u8);
    out.push((x >> 16u64) as u8);
    out.push((x >> 24u64) as u8);
    out.push((x >> 32u64) as u8);
    out.push((x >> 40u64) as u8);
    out.push((x >> 48u64) as u8);
    out.push((x >> 56u64) as u8);
    assert(out@ == old(out)@ + le_bytes(x));
}

/// The work value of a 32-byte mining hash.
pub(crate) fn leading_value(hash: &Vec<u8>) -> (r: u64)
    requires
        hash@.len() >= 8,
    ensures
        r as nat == work_value(hash@),
{
    let mut v: u64 = 0;
    let mut i: usize = 0;
    while i < 8
        invariant
            i <= 8,
            hash@.len() >= 8,
            v as nat == be_value(hash@.take(i as int)),
        decreases 8 - i,
    {
        proof {
            lemma_be_value_bound(hash@.take(i as int));
            reveal_with_fuel(pow256, 9);
            assert(pow256(i as nat) <= pow256(7)) by {
                lemma_pow256_mono(i as nat, 7);
            }
            assert(v * 256 + hash@[i as int] < 0x1_0000_0000_0000_0000) by (nonlinear_arith)
                requires
                    v < pow256(7),
                    pow256(7) == 0x100_0000_0000_0000,
                    hash@[i as int] < 256,
            ;
            assert(hash@.take(i + 1).drop_last() == hash@.take(i as int));
        }
        v = v * 256 + hash[i] as u64;
        i = i + 1;
    }
    v
}

proof fn lemma_pow256_mono(a: nat, b: nat)
    requires
        a <= b,
    ensures
        pow256(a) <= pow256(b),
    decreases b,
{
    if a < b {
        lemma_pow256_mono(a, (b - 1) as nat);
    }
}

/// The bytes that the seal covers, for `h` with target `difficulty`.
pub(crate) fn encode_pre_seal(h: &Header, difficulty: u64) -> (r: Vec<u8>)
    ensures
        r@ == pre_seal_bytes(h@, difficulty),
{
    let mut out: Vec<u8> = Vec::new();
    push_bytes(&mut out, h.parent.as_slice());
    push_le_u64(&mut out, h.number);
    push_le_u64(&mut out, difficulty);
    push_bytes(&mut out, h.body_root.as_slice());
    out
}

/// Whether `nonce` solves the pre-hash `pre` for target `difficulty`.
pub fn check_nonce(pre: &Vec<u8>, difficulty: u64, nonce: u64) -> (r: bool)
    ensures
        r == solves_pre_hash(pre@, difficulty, nonce),
{
    let mut input: Vec<u8> = Vec::new();
    push_bytes(&mut input, pre.as_slice());
    push_le_u64(&mut input, nonce);
    let hash = sha3_256(input.as_slice());
    let value = leading_value(&hash);
    value <= difficulty
}

/// Checks a header's seal against the header's own target. A missing seal
/// is no error: it is simply not valid.
pub fn verify_seal(h: &Header) -> (r: bool)
    ensures
        r == seal_valid(h@),
{
    match h.seal {
        Some(nonce) => {
            let pre = pre_hash_of(h, h.difficulty);
            check_nonce(&pre, h.difficulty, nonce)
        },
        None => false,
    }
}

/// The target for a child of `parent`; total and deterministic.
pub fn compute_difficulty(parent: &Header) -> (r: u64)
    ensures
        r == difficulty_for(parent@),
{
    parent.difficulty
}

/// Searches the nonces `0 .. max_attempts` in order for one that solves
/// `template` at target `difficulty`, and returns the first found. Nothing
/// is kept between calls.
pub fn mine(template: &Header, difficulty: u64, max_attempts: u64) -> (r: Option<u64>)
    ensures
        max_attempts == 0 ==> r is None,
        r matches Some(n) ==> {
            &&& n < max_attempts
            &&& nonce_solves(template@, difficulty, n)
            &&& forall|m: u64| m < n ==> !nonce_solves(template@, difficulty, m)
        },
        r is None ==> forall|m: u64| m < max_attempts ==> !nonce_solves(template@, difficulty, m),
{
    let pre = pre_hash_of(template, difficulty);
    search_nonce(&pre, difficulty, max_attempts)
}

/// The pre-hash of `h` with target `difficulty`: what nonces are searched against.
pub fn pre_hash_of(h: &Header, difficulty: u64) -> (r: Vec<u8>)
    ensures
        r@ == pre_hash(h@, difficulty),
{
    sha3_256(encode_pre_seal(h, difficulty).as_slice())
}

/// Whether a nonce solves the pre-hash `pre` for target `difficulty`.
pub open spec fn solves_pre_hash(pre: Seq<u8>, difficulty: u64, nonce: u64) -> bool {
    work_value(work_hash(pre, nonce)) <= difficulty as nat
}

/// Searches the nonces `0 .. max_attempts` in order for the first that
/// solves the pre-hash `pre` for target `difficulty`.
pub fn search_nonce(pre: &Vec<u8>, difficulty: u64, max_attempts: u64) -> (r: Option<u64>)
    ensures
        max_attempts == 0 ==> r is None,
        r matches Some(n) ==> {
            &&& n < max_attempts
            &&& solves_pre_hash(pre@, difficulty, n)
            &&& forall|m: u64| m < n ==> !solves_pre_hash(pre@, difficulty, m)
        },
        r is None ==> forall|m: u64| m < max_attempts ==> !solves_pre_hash(pre@, difficulty, m),
{
    let mut nonce: u64 = 0;
    while nonce < max_attempts
        invariant
            nonce <= max_attempts,
            forall|m: u64| m < nonce ==> !solves_pre_hash(pre@, difficulty, m),
        decreases max_attempts - nonce,
    {
        if check_nonce(pre, difficulty, nonce) {
            return Some(nonce);
        }
        nonce = nonce + 1;
    }
    None
}

} // verus!
