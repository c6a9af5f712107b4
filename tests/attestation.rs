use anchor_lang::solana_program::hash::hashv;
use anchor_lang::solana_program::pubkey::Pubkey;
use docksight_attestation::attest_analysis;
use docksight_attestation::attestation_seed_vec;
use docksight_attestation::find_attestation_address;
use docksight_attestation::AttestAnalysis;
use docksight_attestation::ErrorCode;
use docksight_attestation::Registry;
use docksight_attestation::ATTESTATION_SPACE;

const PROGRAM: [u8; 32] = [7u8; 32];
const SIGNER: [u8; 32] = [42u8; 32];

fn ctx_at(now: i64) -> AttestAnalysis {
    AttestAnalysis { authority: SIGNER, clock: Some(now) }
}

fn zeros() -> String {
    "0".repeat(64)
}

fn effs() -> String {
    "f".repeat(64)
}

fn attest(reg: &mut Registry, ctx: &AttestAnalysis, id: &str, a: &str, r: &str) -> Result<(), ErrorCode> {
    attest_analysis(reg, ctx, id.to_string(), a.to_string(), r.to_string())
}

#[test]
fn dock_001_attested_once_then_rejected() {
    let mut reg = Registry::new(PROGRAM);
    let ctx = ctx_at(1_700_000_000);
    assert_eq!(attest(&mut reg, &ctx, "dock_001", &zeros(), &effs()), Ok(()));
    let (address, bump) = find_attestation_address(&PROGRAM, &"dock_001".to_string()).unwrap();
    let rec = reg.get(&address).unwrap().clone();
    assert_eq!(rec.authority, SIGNER);
    assert_eq!(rec.analysis_id, "dock_001");
    assert_eq!(rec.analysis_hash, zeros());
    assert_eq!(rec.report_hash, effs());
    assert_eq!(rec.timestamp, 1_700_000_000);
    assert_eq!(rec.bump, bump);
    assert_eq!(reg.events().len(), 1);

    let later = ctx_at(1_700_000_100);
    assert_eq!(
        attest(&mut reg, &later, "dock_001", &zeros(), &effs()),
        Err(ErrorCode::AccountAlreadyInUse)
    );
    assert_eq!(reg.len(), 1);
    assert_eq!(reg.events().len(), 1);
    let again = reg.get(&address).unwrap();
    assert_eq!(again.timestamp, 1_700_000_000);
    assert_eq!(again.report_hash, effs());
}

#[test]
fn second_attestation_rejected_whatever_the_hashes_and_signer() {
    let mut reg = Registry::new(PROGRAM);
    assert_eq!(attest(&mut reg, &ctx_at(10), "run-7", &zeros(), &effs()), Ok(()));
    let other = AttestAnalysis { authority: [9u8; 32], clock: Some(20) };
    assert_eq!(
        attest(&mut reg, &other, "run-7", &"a".repeat(64), &"b".repeat(64)),
        Err(ErrorCode::AccountAlreadyInUse)
    );
    let (address, _) = find_attestation_address(&PROGRAM, &"run-7".to_string()).unwrap();
    let rec = reg.get(&address).unwrap();
    assert_eq!(rec.authority, SIGNER);
    assert_eq!(rec.analysis_hash, zeros());
    assert_eq!(rec.timestamp, 10);
}

#[test]
fn identifier_of_65_bytes_is_too_long() {
    let mut reg = Registry::new(PROGRAM);
    let id = "x".repeat(65);
    assert_eq!(attest(&mut reg, &ctx_at(1), &id, &zeros(), &effs()), Err(ErrorCode::AnalysisIdTooLong));
    assert_eq!(reg.len(), 0);
    assert!(reg.events().is_empty());
}

#[test]
fn identifier_of_64_bytes_is_accepted() {
    let mut reg = Registry::new(PROGRAM);
    let id = "x".repeat(64);
    assert_eq!(attest(&mut reg, &ctx_at(1), &id, &zeros(), &effs()), Ok(()));
    let (address, _) = find_attestation_address(&PROGRAM, &id).unwrap();
    assert_eq!(reg.get(&address).unwrap().analysis_id, id);
}

#[test]
fn identifier_length_counts_bytes() {
    let mut reg = Registry::new(PROGRAM);
    let id = "é".repeat(33);
    assert_eq!(id.chars().count(), 33);
    assert_eq!(attest(&mut reg, &ctx_at(1), &id, &zeros(), &effs()), Err(ErrorCode::AnalysisIdTooLong));
    let id = "é".repeat(32);
    assert_eq!(attest(&mut reg, &ctx_at(1), &id, &zeros(), &effs()), Ok(()));
}

#[test]
fn empty_identifier_is_accepted() {
    let mut reg = Registry::new(PROGRAM);
    assert_eq!(attest(&mut reg, &ctx_at(3), "", &zeros(), &effs()), Ok(()));
    assert_eq!(reg.len(), 1);
}

#[test]
fn analysis_hash_length_boundaries() {
    let mut reg = Registry::new(PROGRAM);
    let ctx = ctx_at(5);
    assert_eq!(attest(&mut reg, &ctx, "h", &"0".repeat(63), &effs()), Err(ErrorCode::InvalidHashLength));
    assert_eq!(attest(&mut reg, &ctx, "h", &"0".repeat(65), &effs()), Err(ErrorCode::InvalidHashLength));
    assert_eq!(reg.len(), 0);
    assert_eq!(attest(&mut reg, &ctx, "h", &"0".repeat(64), &effs()), Ok(()));
}

#[test]
fn report_hash_length_boundaries() {
    let mut reg = Registry::new(PROGRAM);
    let ctx = ctx_at(5);
    assert_eq!(attest(&mut reg, &ctx, "r", &zeros(), &"f".repeat(63)), Err(ErrorCode::InvalidHashLength));
    assert_eq!(attest(&mut reg, &ctx, "r", &zeros(), &"f".repeat(65)), Err(ErrorCode::InvalidHashLength));
    assert_eq!(attest(&mut reg, &ctx, "r", &zeros(), ""), Err(ErrorCode::InvalidHashLength));
    assert_eq!(reg.len(), 0);
    assert_eq!(attest(&mut reg, &ctx, "r", &zeros(), &"f".repeat(64)), Ok(()));
}

#[test]
fn identifier_checked_before_hashes() {
    let mut reg = Registry::new(PROGRAM);
    assert_eq!(attest(&mut reg, &ctx_at(1), &"x".repeat(70), "", ""), Err(ErrorCode::AnalysisIdTooLong));
}

#[test]
fn hashes_checked_before_collision() {
    let mut reg = Registry::new(PROGRAM);
    assert_eq!(attest(&mut reg, &ctx_at(1), "dup", &zeros(), &effs()), Ok(()));
    assert_eq!(attest(&mut reg, &ctx_at(2), "dup", "abc", &effs()), Err(ErrorCode::InvalidHashLength));
}

#[test]
fn unavailable_clock_stores_nothing() {
    let mut reg = Registry::new(PROGRAM);
    let ctx = AttestAnalysis { authority: SIGNER, clock: None };
    assert_eq!(attest(&mut reg, &ctx, "c", &zeros(), &effs()), Err(ErrorCode::ClockUnavailable));
    assert_eq!(reg.len(), 0);
    assert!(reg.events().is_empty());
    assert_eq!(attest(&mut reg, &ctx_at(9), "c", &zeros(), &effs()), Ok(()));
}

#[test]
fn distinct_identifiers_are_independent() {
    let mut reg = Registry::new(PROGRAM);
    assert_eq!(attest(&mut reg, &ctx_at(1), "a1", &zeros(), &effs()), Ok(()));
    assert_eq!(attest(&mut reg, &ctx_at(2), "a2", &zeros(), &effs()), Ok(()));
    assert_eq!(reg.len(), 2);
    let events = reg.events();
    assert_eq!(events[0].analysis_id, "a1");
    assert_eq!(events[0].timestamp, 1);
    assert_eq!(events[1].analysis_id, "a2");
    assert_eq!(events[1].authority, SIGNER);
    assert_eq!(events[1].analysis_hash, zeros());
    assert_eq!(events[1].report_hash, effs());
    assert_eq!(events[1].timestamp, 2);
}

#[test]
fn derivation_is_deterministic() {
    let id = "dock_001".to_string();
    let first = find_attestation_address(&PROGRAM, &id).unwrap();
    let second = find_attestation_address(&PROGRAM, &id).unwrap();
    assert_eq!(first, second);
    let other = find_attestation_address(&PROGRAM, &"dock_002".to_string()).unwrap();
    assert_ne!(first.0, other.0);
    let elsewhere = find_attestation_address(&[8u8; 32], &id).unwrap();
    assert_ne!(first.0, elsewhere.0);
    assert_ne!(first.0, PROGRAM);
}

#[test]
fn short_identifier_derives_as_a_single_seed() {
    let id = "dock_001";
    let (address, bump) = find_attestation_address(&PROGRAM, &id.to_string()).unwrap();
    let (expected, expected_bump) =
        Pubkey::find_program_address(&[b"attestation", id.as_bytes()], &Pubkey::new_from_array(PROGRAM));
    assert_eq!(address, expected.to_bytes());
    assert_eq!(bump, expected_bump);
}

#[test]
fn long_identifier_derives_from_its_whole_bytes() {
    let id = "an-identifier-of-forty-bytes-0123456789";
    assert_eq!(id.len(), 39);
    let (address, bump) = find_attestation_address(&PROGRAM, &id.to_string()).unwrap();
    let digest = hashv(&[b"attestation", id.as_bytes(), &[bump], &PROGRAM, b"ProgramDerivedAddress"]);
    assert_eq!(address, digest.to_bytes());
}

#[test]
fn seeds_are_tag_then_chunks() {
    assert_eq!(attestation_seed_vec(b""), vec![b"attestation".to_vec()]);
    assert_eq!(attestation_seed_vec(b"dock_001"), vec![b"attestation".to_vec(), b"dock_001".to_vec()]);
    let id = vec![3u8; 70];
    let seeds = attestation_seed_vec(&id);
    assert_eq!(seeds.len(), 4);
    assert_eq!(seeds[1], vec![3u8; 32]);
    assert_eq!(seeds[2], vec![3u8; 32]);
    assert_eq!(seeds[3], vec![3u8; 6]);
}

#[test]
fn record_at_given_address() {
    let mut reg = Registry::new(PROGRAM);
    let derived = Some(([5u8; 32], 250u8));
    let r = reg.record_attestation(&ctx_at(77), "given".to_string(), zeros(), effs(), derived);
    assert_eq!(r, Ok(()));
    let rec = reg.get(&[5u8; 32]).unwrap();
    assert_eq!(rec.bump, 250);
    assert_eq!(rec.timestamp, 77);
    assert!(reg.get(&[6u8; 32]).is_none());
    let r = reg.record_attestation(&ctx_at(78), "other".to_string(), zeros(), effs(), derived);
    assert_eq!(r, Err(ErrorCode::AccountAlreadyInUse));
}

#[test]
fn record_without_derived_address() {
    let mut reg = Registry::new(PROGRAM);
    let r = reg.record_attestation(&ctx_at(1), "n".to_string(), zeros(), effs(), None);
    assert_eq!(r, Err(ErrorCode::NoViableBump));
    assert_eq!(reg.len(), 0);
    assert_eq!(reg.program_id(), PROGRAM);
}

#[test]
fn account_space_matches_layout() {
    assert_eq!(ATTESTATION_SPACE, 253);
}
