use soroban_sdk::crypto::bn254::{Bn254Fr, Bn254G1Affine};
use soroban_sdk::{Bytes, Env, U256};
use zk_games::deal::{community_seed, community_seed_secure, deal_community_cards};
use zk_games::groth16::{
    compute_public_input_contribution, parse_public_signals, verify_groth16, Groth16Proof, VerificationError,
    VerificationKey,
};

const G2_GENERATOR: [u8; 128] = [
    0x19, 0x8e, 0x93, 0x93, 0x92, 0x0d, 0x48, 0x3a, 0x72, 0x60, 0xbf, 0xb7, 0x31, 0xfb, 0x5d, 0x25, 0xf1, 0xaa,
    0x49, 0x33, 0x35, 0xa9, 0xe7, 0x12, 0x97, 0xe4, 0x85, 0xb7, 0xae, 0xf3, 0x12, 0xc2, 0x18, 0x00, 0xde, 0xef,
    0x12, 0x1f, 0x1e, 0x76, 0x42, 0x6a, 0x00, 0x66, 0x5e, 0x5c, 0x44, 0x79, 0x67, 0x43, 0x22, 0xd4, 0xf7, 0x5e,
    0xda, 0xdd, 0x46, 0xde, 0xbd, 0x5c, 0xd9, 0x92, 0xf6, 0xed, 0x09, 0x06, 0x89, 0xd0, 0x58, 0x5f, 0xf0, 0x75,
    0xec, 0x9e, 0x99, 0xad, 0x69, 0x0c, 0x33, 0x95, 0xbc, 0x4b, 0x31, 0x33, 0x70, 0xb3, 0x8e, 0xf3, 0x55, 0xac,
    0xda, 0xdc, 0xd1, 0x22, 0x97, 0x5b, 0x12, 0xc8, 0x5e, 0xa5, 0xdb, 0x8c, 0x6d, 0xeb, 0x4a, 0xab, 0x71, 0x80,
    0x8d, 0xcb, 0x40, 0x8f, 0xe3, 0xd1, 0xe7, 0x69, 0x0c, 0x43, 0xd3, 0x7b, 0x4c, 0xe6, 0xcc, 0x01, 0x66, 0xfa,
    0x7d, 0xaa,
];

/// `k` times the G1 generator `(1, 2)`, computed by the host.
fn g1_times(env: &Env, k: u32) -> Vec<u8> {
    let mut g = [0u8; 64];
    g[31] = 1;
    g[63] = 2;
    let p = Bn254G1Affine::from_array(env, &g);
    let s = Bn254Fr::from_u256(U256::from_u32(env, k));
    env.crypto().bn254().g1_mul(&p, &s).to_array().to_vec()
}

fn key(env: &Env) -> VerificationKey {
    VerificationKey {
        alpha: g1_times(env, 1),
        beta: G2_GENERATOR.to_vec(),
        gamma: G2_GENERATOR.to_vec(),
        delta: G2_GENERATOR.to_vec(),
        ic: vec![g1_times(env, 1), g1_times(env, 1)],
    }
}

#[test]
fn public_inputs_fold_into_the_key() {
    let env = Env::default();
    let ic = vec![g1_times(&env, 1), g1_times(&env, 1)];
    let scalars = parse_public_signals(&vec![scalar(5)]).unwrap();
    let vk_x = compute_public_input_contribution(&env, &ic, &scalars);
    assert_eq!(vk_x, g1_times(&env, 6));
}

#[test]
fn pairing_equation_decides_the_proof() {
    let env = Env::default();
    // with every G2 point the generator, the equation holds iff A = alpha + vk_x + C
    let vk = key(&env);
    let inputs = vec![scalar(5)];
    let good = Groth16Proof { pi_a: g1_times(&env, 8), pi_b: G2_GENERATOR.to_vec(), pi_c: g1_times(&env, 1) };
    assert_eq!(verify_groth16(&env, &vk, &good, &inputs), Ok(true));
    let bad = Groth16Proof { pi_a: g1_times(&env, 7), pi_b: G2_GENERATOR.to_vec(), pi_c: g1_times(&env, 1) };
    assert_eq!(verify_groth16(&env, &vk, &bad, &inputs), Err(VerificationError::PairingCheckFailed));
    let other_input = vec![scalar(4)];
    assert_eq!(verify_groth16(&env, &vk, &good, &other_input), Err(VerificationError::PairingCheckFailed));
}

#[test]
fn community_seeds_are_keccak_digests() {
    let env = Env::default();
    let expected = env.crypto().keccak256(&Bytes::from_slice(&env, &[0u8, 0, 0, 7])).to_array().to_vec();
    assert_eq!(community_seed(&env, 7), expected);
    let material = [1u8, 2, 3, 4, 0, 0, 1, 0];
    let expected = env.crypto().keccak256(&Bytes::from_slice(&env, &material)).to_array().to_vec();
    assert_eq!(community_seed_secure(&env, 256, &vec![1u8, 2], &vec![3u8, 4]), expected);
}

#[test]
fn dealing_without_swaps_keeps_deck_order() {
    // each step exchanging a card with itself leaves 0, 1, 2, 3, 4 on top
    let draws: Vec<u64> = (0..51u64).map(|k| 51 - k).collect();
    assert_eq!(deal_community_cards(&draws), vec![0, 1, 2, 3, 4]);
}

#[test]
fn dealing_follows_the_draws() {
    // every step swaps the card at its position with the top card
    let draws = vec![0u64; 51];
    let cards = deal_community_cards(&draws);
    // the top card after all steps is the one swapped last, from position 1
    assert_eq!(cards.len(), 5);
    let mut deck: Vec<u32> = (0..52).collect();
    for (k, d) in draws.iter().enumerate() {
        deck.swap(51 - k, *d as usize);
    }
    assert_eq!(cards, deck[..5].to_vec());
    let mut sorted = cards.clone();
    sorted.sort();
    sorted.dedup();
    assert_eq!(sorted.len(), 5);
}

/// A 32-byte big-endian scalar.
fn scalar(v: u8) -> Vec<u8> {
    let mut s = vec![0u8; 32];
    s[31] = v;
    s
}
