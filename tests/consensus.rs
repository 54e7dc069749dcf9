use pow_node::import::{block_hash_of, Chain, RejectReason, Verdict, MAX_TIMESTAMP_DRIFT_MILLIS};
use pow_node::mining::{run_cycle, CycleOutcome, MiningConfig, SkipReason};
use pow_node::seal::{check_nonce, compute_difficulty, mine, pre_hash_of, search_nonce, verify_seal, Header};

const EASY: u64 = 1u64 << 60;
const EASIER: u64 = 1u64 << 62;

fn genesis(difficulty: u64) -> Header {
    Header { parent: vec![0u8; 32], number: 0, difficulty, body_root: vec![1, 2, 3], seal: None }
}

fn candidate(tip: &Header, difficulty: u64, body: u8) -> Header {
    Header { parent: block_hash_of(tip), number: tip.number + 1, difficulty, body_root: vec![body], seal: None }
}

fn sealed(tip: &Header, body: u8) -> Header {
    let mut c = candidate(tip, compute_difficulty(tip), body);
    let nonce = mine(&c, c.difficulty, 10_000).expect("a nonce within budget");
    c.seal = Some(nonce);
    c
}

#[test]
fn block_hash_is_sha3_of_the_encoding() {
    let g = genesis(u64::MAX);
    let expected: Vec<u8> = vec![
        82, 217, 157, 29, 122, 75, 51, 217, 122, 221, 26, 135, 13, 37, 204, 27, 151, 220, 204, 113,
        83, 19, 0, 56, 60, 37, 192, 116, 131, 52, 109, 227,
    ];
    assert_eq!(block_hash_of(&g), expected);
}

#[test]
fn mine_finds_the_first_solving_nonce() {
    let g = genesis(EASY);
    let c = candidate(&g, EASY, 9);
    assert_eq!(mine(&c, EASY, 500), Some(7));
    assert_eq!(mine(&c, EASY, 8), Some(7));
    assert_eq!(mine(&c, EASY, 7), None);
    assert_eq!(mine(&c, EASIER, 500), Some(2));
}

#[test]
fn mine_with_no_attempts_finds_nothing() {
    let g = genesis(u64::MAX);
    let c = candidate(&g, u64::MAX, 9);
    assert_eq!(mine(&c, u64::MAX, 0), None);
    assert_eq!(mine(&c, u64::MAX, 1), Some(0));
}

#[test]
fn verify_seal_checks_the_nonce_against_the_stated_target() {
    let g = genesis(EASY);
    let mut c = candidate(&g, EASY, 9);
    assert!(!verify_seal(&c));
    c.seal = Some(7);
    assert!(verify_seal(&c));
    for n in 0..7u64 {
        c.seal = Some(n);
        assert!(!verify_seal(&c));
    }
}

#[test]
fn difficulty_is_derived_from_the_parent_alone() {
    let g = genesis(EASY);
    assert_eq!(compute_difficulty(&g), EASY);
    assert_eq!(compute_difficulty(&g), compute_difficulty(&g.clone()));
}

#[test]
fn mined_candidate_is_accepted_and_becomes_best_tip() {
    let g = genesis(EASY);
    let mut chain = Chain::new(&g);
    let proposal = Header { parent: vec![], number: 1, difficulty: 0, body_root: vec![9], seal: None };
    let block = match run_cycle(&MiningConfig::standard(), chain.best_tip(), true, Some(proposal)) {
        CycleOutcome::Sealed(h) => h,
        other => panic!("expected a sealed block, got {:?}", other),
    };
    assert_eq!(block.seal, Some(7));
    assert_eq!(block.parent, block_hash_of(&g));
    assert_eq!(block.difficulty, EASY);
    assert_eq!(chain.import_block(&block, true), Verdict::Accepted);
    assert_eq!(chain.len(), 2);
    assert_eq!(block_hash_of(chain.best_tip()), block_hash_of(&block));
}

#[test]
fn importing_twice_does_not_duplicate() {
    let g = genesis(u64::MAX);
    let mut chain = Chain::new(&g);
    let b = sealed(&g, 1);
    assert_eq!(chain.import_block(&b, true), Verdict::Accepted);
    assert_eq!(chain.import_block(&b, true), Verdict::Accepted);
    assert_eq!(chain.len(), 2);
}

#[test]
fn stale_candidate_loses_to_network_block() {
    let g = genesis(u64::MAX);
    let mut chain = Chain::new(&g);
    let local = sealed(&g, 1);
    let network = sealed(&g, 2);
    assert_eq!(chain.import_block(&network, true), Verdict::Accepted);
    assert_eq!(chain.import_block(&local, true), Verdict::Rejected(RejectReason::StaleParent));
    assert_eq!(chain.len(), 2);
    assert_eq!(block_hash_of(chain.best_tip()), block_hash_of(&network));
}

#[test]
fn seal_for_another_target_is_rejected() {
    let g = genesis(EASY);
    let mut chain = Chain::new(&g);
    let mut forged = candidate(&g, EASIER, 9);
    forged.seal = Some(2);
    assert!(verify_seal(&forged));
    assert_eq!(chain.import_block(&forged, true), Verdict::Rejected(RejectReason::DifficultyMismatch));
    let mut weak = candidate(&g, EASY, 9);
    weak.seal = Some(2);
    assert_eq!(chain.import_block(&weak, true), Verdict::Rejected(RejectReason::InvalidProofOfWork));
    assert_eq!(chain.len(), 1);
}

#[test]
fn unsealed_block_is_rejected() {
    let g = genesis(u64::MAX);
    let mut chain = Chain::new(&g);
    let c = candidate(&g, u64::MAX, 1);
    assert_eq!(chain.import_block(&c, true), Verdict::Rejected(RejectReason::InvalidProofOfWork));
}

#[test]
fn unknown_parent_is_rejected() {
    let g = genesis(u64::MAX);
    let mut chain = Chain::new(&g);
    let mut orphan = sealed(&g, 1);
    orphan.parent = vec![7u8; 32];
    assert_eq!(chain.import_block(&orphan, true), Verdict::Rejected(RejectReason::UnknownParent));
}

#[test]
fn runtime_verdict_is_respected() {
    let g = genesis(u64::MAX);
    let mut chain = Chain::new(&g);
    let b = sealed(&g, 1);
    assert_eq!(chain.import_block(&b, false), Verdict::Rejected(RejectReason::RuntimeRejected));
    assert_eq!(chain.len(), 1);
}

#[test]
fn timestamp_too_far_ahead_is_rejected() {
    let g = genesis(u64::MAX);
    let mut chain = Chain::new(&g);
    let b = sealed(&g, 1);
    let now = 1_000_000u64;
    assert_eq!(
        chain.import_incoming(&b, now + MAX_TIMESTAMP_DRIFT_MILLIS + 1, now, true),
        Verdict::Rejected(RejectReason::InherentCheckFailed)
    );
    assert_eq!(chain.len(), 1);
    assert_eq!(chain.import_incoming(&b, now + MAX_TIMESTAMP_DRIFT_MILLIS, now, true), Verdict::Accepted);
    assert_eq!(chain.len(), 2);
}

#[test]
fn cycle_skips_without_authoring_or_proposal() {
    let g = genesis(u64::MAX);
    let config = MiningConfig::standard();
    let proposal = candidate(&g, 0, 1);
    assert!(matches!(
        run_cycle(&config, &g, false, Some(proposal)),
        CycleOutcome::Skipped(SkipReason::CannotAuthor)
    ));
    assert!(matches!(run_cycle(&config, &g, true, None), CycleOutcome::Skipped(SkipReason::ProposalFailed)));
}

#[test]
fn cycle_misses_when_budget_runs_out() {
    let g = genesis(EASY);
    let config = MiningConfig { round_budget: 7, retry_delay_secs: 2 };
    let proposal = candidate(&g, 0, 9);
    assert!(matches!(run_cycle(&config, &g, true, Some(proposal)), CycleOutcome::Missed));
    let none = MiningConfig { round_budget: 0, retry_delay_secs: 2 };
    assert!(matches!(run_cycle(&none, &g, true, Some(candidate(&g, 0, 9))), CycleOutcome::Missed));
}

#[test]
fn standard_mining_config() {
    let c = MiningConfig::standard();
    assert_eq!(c.round_budget, 500);
    assert_eq!(c.retry_delay_secs, 2);
}

#[test]
fn search_on_a_pre_hash_finds_the_first_solving_nonce() {
    let pre: Vec<u8> = (0u8..32).collect();
    assert_eq!(search_nonce(&pre, EASY, 100), Some(74));
    assert_eq!(search_nonce(&pre, EASY, 74), None);
    assert_eq!(search_nonce(&pre, EASY, 0), None);
    assert!(check_nonce(&pre, EASY, 74));
    assert!(!check_nonce(&pre, EASY, 73));
}

#[test]
fn pre_hash_covers_the_target() {
    let g = genesis(EASY);
    let c = candidate(&g, EASY, 9);
    assert_eq!(pre_hash_of(&c, EASY).len(), 32);
    assert_ne!(pre_hash_of(&c, EASY), pre_hash_of(&c, EASIER));
    assert_eq!(search_nonce(&pre_hash_of(&c, EASY), EASY, 500), Some(7));
}
