use soroban_sdk::Env;
use zk_games::bytes::{bytes_to_i32, bytes_to_u32};
use zk_games::groth16::{
    bytes_to_scalar, parse_proof, parse_public_signals, parse_verification_key, verify_groth16,
    verify_groth16_proof, Groth16Proof, VerificationError, VerificationKey,
};

fn zero_vk(n_ic: usize) -> VerificationKey {
    VerificationKey {
        alpha: vec![0u8; 64],
        beta: vec![0u8; 128],
        gamma: vec![0u8; 128],
        delta: vec![0u8; 128],
        ic: vec![vec![0u8; 64]; n_ic],
    }
}

fn zero_proof() -> Groth16Proof {
    Groth16Proof { pi_a: vec![0u8; 64], pi_b: vec![0u8; 128], pi_c: vec![0u8; 64] }
}

#[test]
fn test_parse_verification_key() {
    let env = Env::default();
    let vk = zero_vk(2);
    let result = parse_verification_key(&env, &vk);
    assert!(result.is_ok());
    let parsed = result.unwrap();
    assert_eq!(parsed.ic.len(), 2);
}

#[test]
fn test_parse_proof() {
    let env = Env::default();
    let proof = Groth16Proof { pi_a: vec![0u8; 64], pi_b: vec![0u8; 128], pi_c: vec![0u8; 64] };
    let result = parse_proof(&env, &proof);
    assert!(result.is_ok());
}

#[test]
fn test_parse_public_signals() {
    let signals = vec![vec![1u8; 32], vec![2u8; 32]];
    let parsed = parse_public_signals(&signals).unwrap();
    assert_eq!(parsed.len(), 2);
}

#[test]
fn test_proof_structure_validation() {
    let env = Env::default();
    // A is one coordinate short
    let proof = Groth16Proof { pi_a: vec![0u8; 32], pi_b: vec![], pi_c: vec![] };
    let vk = VerificationKey { alpha: vec![], beta: vec![], gamma: vec![], delta: vec![], ic: vec![] };
    let public_inputs: Vec<Vec<u8>> = Vec::new();
    let result = verify_groth16(&env, &vk, &proof, &public_inputs);
    assert_eq!(result, Err(VerificationError::InvalidProofStructure));
}

#[test]
fn test_public_inputs_validation() {
    let env = Env::default();
    let vk = zero_vk(2);
    let public_inputs = vec![vec![1u8], vec![2u8], vec![3u8]];
    let result = verify_groth16(&env, &vk, &zero_proof(), &public_inputs);
    assert_eq!(result, Err(VerificationError::InvalidPublicInputs));
}

#[test]
fn three_inputs_for_three_ic_points_is_refused() {
    let env = Env::default();
    // points off the curve: the count is refused before any point is read
    let mut vk = zero_vk(3);
    vk.ic[1] = vec![1u8; 64];
    vk.beta = vec![1u8; 128];
    let proof = Groth16Proof { pi_a: vec![0xFFu8; 64], pi_b: vec![0u8; 128], pi_c: vec![0u8; 64] };
    let inputs = vec![vec![1u8; 32], vec![2u8; 32], vec![3u8; 32]];
    assert_eq!(verify_groth16(&env, &vk, &proof, &inputs), Err(VerificationError::InvalidPublicInputs));
}

#[test]
fn key_shape_is_checked() {
    let env = Env::default();
    let mut vk = zero_vk(2);
    vk.beta = vec![0u8; 64];
    assert_eq!(verify_groth16(&env, &vk, &zero_proof(), &vec![vec![1u8]]), Err(VerificationError::InvalidVerificationKey));
    assert_eq!(parse_verification_key(&env, &zero_vk(0)).err(), Some(VerificationError::InvalidVerificationKey));
}

#[test]
fn signal_out_of_range_is_refused() {
    // the group order itself is not a scalar
    let r: Vec<u8> = vec![
        0x30, 0x64, 0x4e, 0x72, 0xe1, 0x31, 0xa0, 0x29, 0xb8, 0x50, 0x45, 0xb6, 0x81, 0x81, 0x58, 0x5d,
        0x28, 0x33, 0xe8, 0x48, 0x79, 0xb9, 0x70, 0x91, 0x43, 0xe1, 0xf5, 0x93, 0xf0, 0x00, 0x00, 0x01,
    ];
    assert_eq!(bytes_to_scalar(&r), Err(VerificationError::InvalidPublicInputs));
    let mut below = r.clone();
    below[31] = 0;
    assert_eq!(bytes_to_scalar(&below), Ok(below.clone()));
    assert_eq!(bytes_to_scalar(&vec![0u8; 33]), Err(VerificationError::InvalidPublicInputs));
    let env = Env::default();
    assert_eq!(verify_groth16(&env, &zero_vk(2), &zero_proof(), &vec![r]), Err(VerificationError::InvalidPublicInputs));
}

#[test]
fn signal_must_be_32_bytes() {
    assert_eq!(bytes_to_scalar(&vec![1u8, 2u8]), Err(VerificationError::InvalidPublicInputs));
    assert_eq!(bytes_to_scalar(&vec![]), Err(VerificationError::InvalidPublicInputs));
    let mut five = vec![0u8; 32];
    five[31] = 5;
    assert_eq!(bytes_to_scalar(&five), Ok(five.clone()));
    assert_eq!(parse_public_signals(&vec![five, vec![5u8]]), Err(VerificationError::InvalidPublicInputs));
}

#[test]
fn point_off_the_curve_is_refused() {
    let env = Env::default();
    let mut proof = zero_proof();
    proof.pi_a = vec![0u8; 64];
    proof.pi_a[63] = 1;
    assert_eq!(parse_proof(&env, &proof).err(), Some(VerificationError::InvalidPoint));
    let mut vk = zero_vk(2);
    vk.alpha[31] = 1;
    assert_eq!(parse_verification_key(&env, &vk).err(), Some(VerificationError::InvalidPoint));
    let mut too_big = zero_proof();
    too_big.pi_c = vec![0xFFu8; 64];
    assert_eq!(verify_groth16(&env, &zero_vk(1), &too_big, &vec![]), Err(VerificationError::InvalidPoint));
}

#[test]
fn generator_points_pass_the_curve_check_and_equation_is_evaluated() {
    let env = Env::default();
    // (1, 2) generates G1
    let mut g = vec![0u8; 64];
    g[31] = 1;
    g[63] = 2;
    let vk = VerificationKey {
        alpha: vec![0u8; 64],
        beta: vec![0u8; 128],
        gamma: vec![0u8; 128],
        delta: vec![0u8; 128],
        ic: vec![g.clone(), g.clone()],
    };
    let proof = Groth16Proof { pi_a: g.clone(), pi_b: vec![0u8; 128], pi_c: g.clone() };
    // every pairing with the G2 identity is one, so the equation holds
    assert_eq!(verify_groth16(&env, &vk, &proof, &vec![scalar(5)]), Ok(true));
    let pvk = parse_verification_key(&env, &vk).unwrap();
    let pproof = parse_proof(&env, &proof).unwrap();
    let scalars = parse_public_signals(&vec![scalar(5)]).unwrap();
    assert_eq!(verify_groth16_proof(&env, &pvk, &pproof, &scalars), Ok(true));
    assert_eq!(verify_groth16_proof(&env, &pvk, &pproof, &vec![]), Err(VerificationError::InvalidPublicInputs));
}

#[test]
fn signals_read_as_big_endian_integers() {
    assert_eq!(bytes_to_u32(&vec![1u8]), 1);
    assert_eq!(bytes_to_u32(&vec![0x01, 0x02, 0x03, 0x04, 0x05]), 0x01020304);
    assert_eq!(bytes_to_u32(&vec![]), 0);
    assert_eq!(bytes_to_i32(&vec![0xFF, 0xFF, 0xFF, 0xFF]), -1);
    assert_eq!(bytes_to_i32(&vec![0x00, 0x50]), 80);
}

/// A 32-byte big-endian scalar.
fn scalar(v: u8) -> Vec<u8> {
    let mut s = vec![0u8; 32];
    s[31] = v;
    s
}
