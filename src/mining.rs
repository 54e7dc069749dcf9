//! One cycle of the mining loop: from the best tip and a proposed
//! candidate to a sealed block, a miss, or a skipped cycle. Waiting between
//! cycles, asking the proposer and submitting the block are the caller's.

use vstd::prelude::*;
use crate::seal::{Header, HeaderView, difficulty_for, nonce_solves, sealed_with, compute_difficulty, mine};
use crate::import::{block_hash, block_hash_of, copy_bytes, find_parent, pow_checks, import_verdict, chain_after, Verdict};
use crate::seal::seal_valid;

verus! {

/// How a mining loop is driven.
#[derive(Clone, Copy, Debug, PartialEq, Eq, Structural)]
pub struct MiningConfig {
    /// Nonces tried in one cycle.
    pub round_budget: u64,
    /// Seconds waited between cycles.
    pub retry_delay_secs: u64,
}

impl MiningConfig {
    /// The node's usual settings: five hundred rounds, two seconds apart.
    pub fn standard() -> (r: MiningConfig)
        ensures
            r.round_budget == 500,
            r.retry_delay_secs == 2,
    {
        MiningConfig { round_budget: 500, retry_delay_secs: 2 }
    }
}

/// Why a cycle ended before any search.
#[derive(Clone, Copy, Debug, PartialEq, Eq, Structural)]
pub enum SkipReason {
    /// The node's runtime cannot author at the next height.
    CannotAuthor,
    /// The proposer failed to build a candidate.
    ProposalFailed,
}

/// How one cycle ended.
#[derive(Debug)]
pub enum CycleOutcome {
    Skipped(SkipReason),
    /// No nonce within the budget met the target.
    Missed,
    /// A sealed block, to be submitted to the import filter.
    Sealed(Header),
}

/// The header to be mined: the candidate placed on `tip`, with the target
/// derived from it, unsealed.
pub open spec fn on_tip(candidate: HeaderView, tip: HeaderView) -> HeaderView {
    HeaderView {
        parent: block_hash(tip),
        difficulty: difficulty_for(tip),
        seal: None,
        ..candidate
    }
}

/// A block sealed by a mining cycle on the best tip of a chain passes the
/// import filter's target and seal checks, and is accepted where the runtime
/// accepts its body; a block not yet held then becomes the new best tip.
pub proof fn lemma_mined_block_accepted(c: Seq<HeaderView>, candidate: HeaderView, nonce: u64)
    requires
        c.len() > 0,
        nonce_solves(on_tip(candidate, c.last()), difficulty_for(c.last()), nonce),
    ensures
        pow_checks(c, sealed_with(on_tip(candidate, c.last()), difficulty_for(c.last()), nonce)) is None,
        import_verdict(c, sealed_with(on_tip(candidate, c.last()), difficulty_for(c.last()), nonce), true)
            == Verdict::Accepted,
        !c.contains(sealed_with(on_tip(candidate, c.last()), difficulty_for(c.last()), nonce)) ==> chain_after(
            c,
            sealed_with(on_tip(candidate, c.last()), difficulty_for(c.last()), nonce),
            true,
        ).last() == sealed_with(on_tip(candidate, c.last()), difficulty_for(c.last()), nonce),
{
    let t = on_tip(candidate, c.last());
    let b = sealed_with(t, difficulty_for(c.last()), nonce);
    assert(find_parent(c, b.parent) == Some(c.len() - 1));
    assert(c[c.len() - 1] == c.last());
    assert(seal_valid(b));
}

/// One mining cycle on the current best `tip`. `can_author` is the
/// runtime's answer on authoring at the next height and `proposal` the
/// proposer's candidate (`None` where it failed). The search tries the
/// nonces below the round budget in order, and seals with the first that
/// solves.
pub fn run_cycle(config: &MiningConfig, tip: &Header, can_author: bool, proposal: Option<Header>) -> (r: CycleOutcome)
    ensures
        !can_author ==> r == CycleOutcome::Skipped(SkipReason::CannotAuthor),
        can_author && proposal is None ==> r == CycleOutcome::Skipped(SkipReason::ProposalFailed),
        can_author && proposal is Some ==> {
            let t = on_tip(proposal->0@, tip@);
            let d = difficulty_for(tip@);
            match r {
                CycleOutcome::Sealed(h) => exists|n: u64| {
                    &&& h@ == sealed_with(t, d, n)
                    &&& n < config.round_budget
                    &&& nonce_solves(t, d, n)
                    &&& forall|m: u64| m < n ==> !nonce_solves(t, d, m)
                },
                CycleOutcome::Missed => forall|m: u64| m < config.round_budget ==> !nonce_solves(t, d, m),
                CycleOutcome::Skipped(_) => false,
            }
        },
{
    if !can_author {
        return CycleOutcome::Skipped(SkipReason::CannotAuthor);
    }
    let candidate = match proposal {
        Some(c) => c,
        None => return CycleOutcome::Skipped(SkipReason::ProposalFailed),
    };
    let difficulty = compute_difficulty(tip);
    let template = Header {
        parent: block_hash_of(tip),
        number: candidate.number,
        difficulty,
        body_root: copy_bytes(&candidate.body_root),
        seal: None,
    };
    assert(template@ == on_tip(candidate@, tip@));
    match mine(&template, difficulty, config.round_budget) {
        Some(nonce) => {
            let sealed = Header { seal: Some(nonce), ..template };
            assert(sealed@ == sealed_with(on_tip(candidate@, tip@), difficulty, nonce));
            CycleOutcome::Sealed(sealed)
        },
        None => CycleOutcome::Missed,
    }
}

} // verus!
