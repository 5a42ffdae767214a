use vstd::prelude::*;
use soroban_sdk::Env;
use crate::bn254::{
    bytes_lt, fr_modulus_bytes, g1_add, g1_encoding, g1_is_on_curve, g1_mul, g1_neg, g1_negate,
    g1_on_curve, g1_scaled, g1_sum, g1_valid, g2_accepted, g2_admissible, g2_encoding, is_g1_encoding,
    is_g2_encoding, pairing_check, pairing_is_identity, scalar_ok, views,
};
use crate::bytes::copy_bytes;

verus! {

/// Byte length of a G1 point encoding.
pub const G1_SIZE: usize = 64;

/// Byte length of a G2 point encoding.
pub const G2_SIZE: usize = 128;

/// Byte length of a scalar.
pub const SCALAR_SIZE: usize = 32;

/// A Groth16 proof: `A` and `C` in G1, `B` in G2, as point encodings.
#[derive(Clone, Debug)]
pub struct Groth16Proof {
    pub pi_a: Vec<u8>,
    pub pi_b: Vec<u8>,
    pub pi_c: Vec<u8>,
}

/// A verification key: `alpha` in G1, `beta`, `gamma`, `delta` in G2, and
/// one G1 point in `ic` per public input plus one.
#[derive(Clone, Debug)]
pub struct VerificationKey {
    pub alpha: Vec<u8>,
    pub beta: Vec<u8>,
    pub gamma: Vec<u8>,
    pub delta: Vec<u8>,
    pub ic: Vec<Vec<u8>>,
}

/// A verification key whose points have been checked.
#[derive(Clone, Debug)]
pub struct ParsedVK {
    pub alpha: Vec<u8>,
    pub beta: Vec<u8>,
    pub gamma: Vec<u8>,
    pub delta: Vec<u8>,
    pub ic: Vec<Vec<u8>>,
}

/// A proof whose points have been checked.
#[derive(Clone, Debug)]
pub struct ParsedProof {
    pub a: Vec<u8>,
    pub b: Vec<u8>,
    pub c: Vec<u8>,
}

/// Why a proof is refused.
#[derive(Clone, Copy, Debug, PartialEq, Eq, Structural)]
pub enum VerificationError {
    InvalidProofStructure,
    InvalidVerificationKey,
    InvalidPublicInputs,
    InvalidPoint,
    InvalidPairingInputs,
    PairingCheckFailed,
}

/// A public signal that stands for a scalar: exactly 32 bytes, big-endian,
/// below the group order.
pub open spec fn signal_ok(s: Seq<u8>) -> bool {
    scalar_ok(s)
}

/// Every point of a list is a G1 point on the curve.
pub open spec fn all_g1_valid(ps: Seq<Seq<u8>>) -> bool {
    forall|i: int| 0 <= i < ps.len() ==> g1_valid(#[trigger] ps[i])
}

/// Every scalar of a list is below the group order.
pub open spec fn all_scalars_ok(ss: Seq<Seq<u8>>) -> bool {
    forall|i: int| 0 <= i < ss.len() ==> scalar_ok(#[trigger] ss[i])
}

/// `IC[0] + IC[1] * s_0 + ... + IC[n] * s_(n-1)`, folded left to right.
pub open spec fn accumulate(ic: Seq<Seq<u8>>, scalars: Seq<Seq<u8>>, n: nat) -> Seq<u8>
    decreases n,
{
    if n == 0 {
        ic[0]
    } else {
        g1_sum(accumulate(ic, scalars, (n - 1) as nat), g1_scaled(ic[n as int], scalars[n - 1]))
    }
}

/// The Groth16 pairing equation
/// `e(-A, B) * e(alpha, beta) * e(vk_x, gamma) * e(C, delta) == 1`
/// with `vk_x` folded from `ic` and the scalars.
pub open spec fn groth16_equation(
    a: Seq<u8>,
    b: Seq<u8>,
    c: Seq<u8>,
    alpha: Seq<u8>,
    beta: Seq<u8>,
    gamma: Seq<u8>,
    delta: Seq<u8>,
    ic: Seq<Seq<u8>>,
    scalars: Seq<Seq<u8>>,
) -> bool {
    pairing_is_identity(
        seq![g1_neg(a), alpha, accumulate(ic, scalars, scalars.len()), c],
        seq![b, beta, gamma, delta],
    )
}

/// The pairing equation for a parsed key and proof.
pub open spec fn pairing_holds(vk: ParsedVK, proof: ParsedProof, scalars: Seq<Seq<u8>>) -> bool {
    groth16_equation(proof.a@, proof.b@, proof.c@, vk.alpha@, vk.beta@, vk.gamma@, vk.delta@, views(vk.ic@), scalars)
}

/// The key's points have the right lengths, with at least one `ic` point.
pub open spec fn vk_shape_ok(vk: VerificationKey) -> bool {
    &&& vk.alpha@.len() == G1_SIZE
    &&& vk.beta@.len() == G2_SIZE
    &&& vk.gamma@.len() == G2_SIZE
    &&& vk.delta@.len() == G2_SIZE
    &&& vk.ic@.len() > 0
    &&& forall|i: int| 0 <= i < vk.ic@.len() ==> (#[trigger] vk.ic@[i])@.len() == G1_SIZE
}

/// The key's points are well-formed, its G1 points on the curve.
pub open spec fn vk_points_ok(vk: VerificationKey) -> bool {
    &&& g1_valid(vk.alpha@)
    &&& g2_encoding(vk.beta@)
    &&& g2_encoding(vk.gamma@)
    &&& g2_encoding(vk.delta@)
    &&& all_g1_valid(views(vk.ic@))
}

/// The proof's points have the right lengths.
pub open spec fn proof_shape_ok(p: Groth16Proof) -> bool {
    p.pi_a@.len() == G1_SIZE && p.pi_b@.len() == G2_SIZE && p.pi_c@.len() == G1_SIZE
}

/// The proof's points are well-formed, its G1 points on the curve.
pub open spec fn proof_points_ok(p: Groth16Proof) -> bool {
    g1_valid(p.pi_a@) && g2_encoding(p.pi_b@) && g1_valid(p.pi_c@)
}

/// Every public signal stands for a scalar.
pub open spec fn signals_ok(inputs: Seq<Seq<u8>>) -> bool {
    forall|i: int| 0 <= i < inputs.len() ==> signal_ok(#[trigger] inputs[i])
}

/// What verifying a proof against a key and public signals gives: the first
/// failed check in the order proof shape, key shape, input count, signal
/// range, points; then the pairing equation.
pub open spec fn groth16_outcome(vk: VerificationKey, proof: Groth16Proof, inputs: Seq<Seq<u8>>) -> Result<bool, VerificationError> {
    if !proof_shape_ok(proof) {
        Err(VerificationError::InvalidProofStructure)
    } else if !vk_shape_ok(vk) {
        Err(VerificationError::InvalidVerificationKey)
    } else if inputs.len() + 1 != vk.ic@.len() {
        Err(VerificationError::InvalidPublicInputs)
    } else if !signals_ok(inputs) {
        Err(VerificationError::InvalidPublicInputs)
    } else if !vk_points_ok(vk) || !proof_points_ok(proof) {
        Err(VerificationError::InvalidPoint)
    } else if groth16_equation(
        proof.pi_a@,
        proof.pi_b@,
        proof.pi_c@,
        vk.alpha@,
        vk.beta@,
        vk.gamma@,
        vk.delta@,
        views(vk.ic@),
        inputs,
    ) {
        Ok(true)
    } else {
        Err(VerificationError::PairingCheckFailed)
    }
}

/// What checking a parsed proof against parsed scalars gives.
pub open spec fn proof_outcome(vk: ParsedVK, proof: ParsedProof, scalars: Seq<Seq<u8>>) -> Result<bool, VerificationError> {
    if scalars.len() + 1 != vk.ic@.len() {
        Err(VerificationError::InvalidPublicInputs)
    } else {
        Ok(pairing_holds(vk, proof, scalars))
    }
}

/// Whether verification gets past the shape, count and signal checks,
/// the checks that read no point.
pub open spec fn pairing_reached(vk: VerificationKey, proof: Groth16Proof, inputs: Seq<Seq<u8>>) -> bool {
    proof_shape_ok(proof) && vk_shape_ok(vk) && inputs.len() + 1 == vk.ic@.len() && signals_ok(inputs)
}

/// The key's G2 points, where well-formed, are points the host accepts.
pub open spec fn key_admissible(vk: VerificationKey) -> bool {
    g2_admissible(vk.beta@) && g2_admissible(vk.gamma@) && g2_admissible(vk.delta@)
}

/// The proof's G2 point, where well-formed, is a point the host accepts.
pub open spec fn proof_admissible(p: Groth16Proof) -> bool {
    g2_admissible(p.pi_b@)
}

impl ParsedVK {
    /// All points checked; at least one `ic` point.
    pub open spec fn wf(&self) -> bool {
        &&& g1_valid(self.alpha@)
        &&& g2_encoding(self.beta@)
        &&& g2_encoding(self.gamma@)
        &&& g2_encoding(self.delta@)
        &&& self.ic@.len() > 0
        &&& all_g1_valid(views(self.ic@))
    }
}

impl ParsedProof {
    /// All points checked.
    pub open spec fn wf(&self) -> bool {
        g1_valid(self.a@) && g2_encoding(self.b@) && g1_valid(self.c@)
    }
}

/// Copies a list of byte strings.
pub fn copy_byte_strings(v: &Vec<Vec<u8>>) -> (r: Vec<Vec<u8>>)
    ensures
        views(r@) == views(v@),
{
    let mut r: Vec<Vec<u8>> = Vec::new();
    let mut i: usize = 0;
    while i < v.len()
        invariant
            0 <= i <= v@.len(),
            r@.len() == i,
            forall|k: int| 0 <= k < i ==> (#[trigger] r@[k])@ == v@[k]@,
        decreases v@.len() - i,
    {
        r.push(copy_bytes(&v[i]));
        i = i + 1;
    }
    assert(views(r@) =~= views(v@));
    r
}

/// Turns a public signal into a scalar: refuses one that is not 32 bytes
/// or not below the group order.
pub fn bytes_to_scalar(bytes: &Vec<u8>) -> (r: Result<Vec<u8>, VerificationError>)
    ensures
        signal_ok(bytes@) ==> r is Ok && r->Ok_0@ == bytes@,
        !signal_ok(bytes@) ==> r == Err::<Vec<u8>, VerificationError>(VerificationError::InvalidPublicInputs),
{
    if bytes.len() != SCALAR_SIZE {
        return Err(VerificationError::InvalidPublicInputs);
    }
    let r = fr_modulus_bytes();
    if !bytes_lt(bytes, &r) {
        return Err(VerificationError::InvalidPublicInputs);
    }
    Ok(copy_bytes(bytes))
}

/// Turns each public signal into a scalar, refusing the list if one fails.
pub fn parse_public_signals(signals: &Vec<Vec<u8>>) -> (r: Result<Vec<Vec<u8>>, VerificationError>)
    ensures
        (forall|i: int| 0 <= i < signals@.len() ==> signal_ok(#[trigger] signals@[i]@)) ==> {
            &&& r is Ok
            &&& r->Ok_0@.len() == signals@.len()
            &&& forall|i: int| 0 <= i < signals@.len() ==> (#[trigger] r->Ok_0@[i])@ == signals@[i]@
            &&& all_scalars_ok(views(r->Ok_0@))
        },
        !(forall|i: int| 0 <= i < signals@.len() ==> signal_ok(#[trigger] signals@[i]@))
            ==> r == Err::<Vec<Vec<u8>>, VerificationError>(VerificationError::InvalidPublicInputs),
{
    let mut out: Vec<Vec<u8>> = Vec::new();
    let mut i: usize = 0;
    while i < signals.len()
        invariant
            0 <= i <= signals@.len(),
            out@.len() == i,
            forall|k: int| 0 <= k < i ==> signal_ok(#[trigger] signals@[k]@),
            forall|k: int| 0 <= k < i ==> (#[trigger] out@[k])@ == signals@[k]@,
        decreases signals@.len() - i,
    {
        match bytes_to_scalar(&signals[i]) {
            Ok(s) => out.push(s),
            Err(e) => {
                return Err(e);
            },
        }
        i = i + 1;
    }
    proof {
        assert forall|k: int| 0 <= k < views(out@).len() implies scalar_ok(#[trigger] views(out@)[k]) by {
            assert(signal_ok(signals@[k]@));
        }
    }
    Ok(out)
}

/// Folds the public inputs into the key's points:
/// `vk_x = IC[0] + IC[1] * s_0 + ... + IC[n] * s_(n-1)`.
pub fn compute_public_input_contribution(env: &Env, ic: &Vec<Vec<u8>>, scalars: &Vec<Vec<u8>>) -> (r: Vec<u8>)
    requires
        ic@.len() == scalars@.len() + 1,
        all_g1_valid(views(ic@)),
        all_scalars_ok(views(scalars@)),
    ensures
        r@ == accumulate(views(ic@), views(scalars@), scalars@.len()),
        g1_valid(r@),
{
    assert(g1_valid(views(ic@)[0]));
    let mut acc = copy_bytes(&ic[0]);
    let mut i: usize = 0;
    while i < scalars.len()
        invariant
            ic@.len() == scalars@.len() + 1,
            all_g1_valid(views(ic@)),
            all_scalars_ok(views(scalars@)),
            0 <= i <= scalars@.len(),
            acc@ == accumulate(views(ic@), views(scalars@), i as nat),
            g1_valid(acc@),
        decreases scalars@.len() - i,
    {
        assert(g1_valid(views(ic@)[i + 1]));
        assert(scalar_ok(views(scalars@)[i as int]));
        let term = g1_mul(env, &ic[i + 1], &scalars[i]);
        acc = g1_add(env, &acc, &term);
        i = i + 1;
    }
    acc
}

/// Checks a parsed proof against parsed public inputs with the Groth16
/// pairing equation; refuses a count of inputs that does not match the key.
pub fn verify_groth16_proof(
    env: &Env,
    vk: &ParsedVK,
    proof: &ParsedProof,
    pub_signals: &Vec<Vec<u8>>,
) -> (r: Result<bool, VerificationError>)
    requires
        vk.wf(),
        proof.wf(),
        all_scalars_ok(views(pub_signals@)),
        pub_signals@.len() + 1 == vk.ic@.len() ==> {
            &&& g2_accepted(vk.beta@)
            &&& g2_accepted(vk.gamma@)
            &&& g2_accepted(vk.delta@)
            &&& g2_accepted(proof.b@)
        },
    ensures
        r == proof_outcome(*vk, *proof, views(pub_signals@)),
{
    if pub_signals.len() != vk.ic.len() - 1 {
        return Err(VerificationError::InvalidPublicInputs);
    }
    let vk_x = compute_public_input_contribution(env, &vk.ic, pub_signals);
    let neg_a = g1_negate(env, &proof.a);
    let mut vp1: Vec<Vec<u8>> = Vec::new();
    vp1.push(neg_a);
    vp1.push(copy_bytes(&vk.alpha));
    vp1.push(vk_x);
    vp1.push(copy_bytes(&proof.c));
    let mut vp2: Vec<Vec<u8>> = Vec::new();
    vp2.push(copy_bytes(&proof.b));
    vp2.push(copy_bytes(&vk.beta));
    vp2.push(copy_bytes(&vk.gamma));
    vp2.push(copy_bytes(&vk.delta));
    assert(views(vp1@) =~= seq![
        g1_neg(proof.a@),
        vk.alpha@,
        accumulate(views(vk.ic@), views(pub_signals@), pub_signals@.len()),
        proof.c@,
    ]);
    assert(views(vp2@) =~= seq![proof.b@, vk.beta@, vk.gamma@, vk.delta@]);
    assert(forall|i: int| 0 <= i < vp1@.len() ==> g1_valid(#[trigger] vp1@[i]@)) by {
        assert forall|i: int| 0 <= i < vp1@.len() implies g1_valid(#[trigger] vp1@[i]@) by {
            assert(vp1@[i]@ == views(vp1@)[i]);
        }
    }
    assert(forall|i: int| 0 <= i < vp2@.len() ==> g2_encoding(#[trigger] vp2@[i]@)) by {
        assert forall|i: int| 0 <= i < vp2@.len() implies g2_encoding(#[trigger] vp2@[i]@) by {
            assert(vp2@[i]@ == views(vp2@)[i]);
        }
    }
    Ok(pairing_check(env, &vp1, &vp2))
}

/// Whether every point of a list is a well-formed G1 point on the curve.
pub fn all_g1_points_valid(env: &Env, points: &Vec<Vec<u8>>) -> (r: bool)
    ensures
        r == all_g1_valid(views(points@)),
{
    let mut i: usize = 0;
    while i < points.len()
        invariant
            0 <= i <= points@.len(),
            forall|k: int| 0 <= k < i ==> g1_valid(#[trigger] views(points@)[k]),
        decreases points@.len() - i,
    {
        if !is_g1_encoding(&points[i]) || !g1_is_on_curve(env, &points[i]) {
            assert(!g1_valid(views(points@)[i as int]));
            return false;
        }
        i = i + 1;
    }
    true
}

/// Whether the key's points have the right lengths, with at least one `ic`
/// point; reads lengths only.
pub fn vk_shape_check(vk: &VerificationKey) -> (r: bool)
    ensures
        r == vk_shape_ok(*vk),
{
    if vk.alpha.len() != G1_SIZE || vk.beta.len() != G2_SIZE || vk.gamma.len() != G2_SIZE
        || vk.delta.len() != G2_SIZE || vk.ic.len() == 0 {
        return false;
    }
    let mut i: usize = 0;
    while i < vk.ic.len()
        invariant
            0 <= i <= vk.ic@.len(),
            forall|k: int| 0 <= k < i ==> (#[trigger] vk.ic@[k])@.len() == G1_SIZE,
        decreases vk.ic@.len() - i,
    {
        if vk.ic[i].len() != G1_SIZE {
            return false;
        }
        i = i + 1;
    }
    true
}

/// Checks the key's shape (`InvalidVerificationKey`) and then its points
/// (`InvalidPoint`).
pub fn parse_verification_key(env: &Env, vk: &VerificationKey) -> (r: Result<ParsedVK, VerificationError>)
    ensures
        !vk_shape_ok(*vk) ==> r == Err::<ParsedVK, VerificationError>(VerificationError::InvalidVerificationKey),
        vk_shape_ok(*vk) && !vk_points_ok(*vk) ==> r == Err::<ParsedVK, VerificationError>(VerificationError::InvalidPoint),
        vk_shape_ok(*vk) && vk_points_ok(*vk) ==> {
            let p = r->Ok_0;
            &&& r is Ok
            &&& p.wf()
            &&& p.alpha@ == vk.alpha@
            &&& p.beta@ == vk.beta@
            &&& p.gamma@ == vk.gamma@
            &&& p.delta@ == vk.delta@
            &&& views(p.ic@) == views(vk.ic@)
        },
{
    if !vk_shape_check(vk) {
        return Err(VerificationError::InvalidVerificationKey);
    }
    let alpha_ok = is_g1_encoding(&vk.alpha) && g1_is_on_curve(env, &vk.alpha);
    if !alpha_ok || !is_g2_encoding(&vk.beta) || !is_g2_encoding(&vk.gamma) || !is_g2_encoding(&vk.delta)
        || !all_g1_points_valid(env, &vk.ic) {
        return Err(VerificationError::InvalidPoint);
    }
    let parsed = ParsedVK {
        alpha: copy_bytes(&vk.alpha),
        beta: copy_bytes(&vk.beta),
        gamma: copy_bytes(&vk.gamma),
        delta: copy_bytes(&vk.delta),
        ic: copy_byte_strings(&vk.ic),
    };
    assert(parsed.ic@.len() == views(parsed.ic@).len());
    assert(vk.ic@.len() == views(vk.ic@).len());
    Ok(parsed)
}

/// Checks the proof's shape (`InvalidProofStructure`) and then its points
/// (`InvalidPoint`).
pub fn parse_proof(env: &Env, proof: &Groth16Proof) -> (r: Result<ParsedProof, VerificationError>)
    ensures
        !proof_shape_ok(*proof) ==> r == Err::<ParsedProof, VerificationError>(VerificationError::InvalidProofStructure),
        proof_shape_ok(*proof) && !proof_points_ok(*proof) ==> r == Err::<ParsedProof, VerificationError>(VerificationError::InvalidPoint),
        proof_shape_ok(*proof) && proof_points_ok(*proof) ==> {
            let p = r->Ok_0;
            &&& r is Ok
            &&& p.wf()
            &&& p.a@ == proof.pi_a@
            &&& p.b@ == proof.pi_b@
            &&& p.c@ == proof.pi_c@
        },
{
    if proof.pi_a.len() != G1_SIZE || proof.pi_b.len() != G2_SIZE || proof.pi_c.len() != G1_SIZE {
        return Err(VerificationError::InvalidProofStructure);
    }
    let a_ok = is_g1_encoding(&proof.pi_a) && g1_is_on_curve(env, &proof.pi_a);
    let c_ok = is_g1_encoding(&proof.pi_c) && g1_is_on_curve(env, &proof.pi_c);
    if !a_ok || !is_g2_encoding(&proof.pi_b) || !c_ok {
        return Err(VerificationError::InvalidPoint);
    }
    Ok(ParsedProof { a: copy_bytes(&proof.pi_a), b: copy_bytes(&proof.pi_b), c: copy_bytes(&proof.pi_c) })
}

/// Verifies a Groth16 proof: checks the proof's and the key's shapes, that
/// there is one public input per `ic` point but the first (before any host
/// call), that each input is a scalar and each point well-formed, and then
/// the pairing equation.
/// A failed equation is `PairingCheckFailed`.
#[verifier::rlimit(50)]
#[verifier::spinoff_prover]
pub fn verify_groth16(
    env: &Env,
    vk: &VerificationKey,
    proof: &Groth16Proof,
    public_inputs: &Vec<Vec<u8>>,
) -> (r: Result<bool, VerificationError>)
    requires
        pairing_reached(*vk, *proof, views(public_inputs@)) ==> key_admissible(*vk) && proof_admissible(*proof),
    ensures
        r == groth16_outcome(*vk, *proof, views(public_inputs@)),
{
    if proof.pi_a.len() != G1_SIZE || proof.pi_b.len() != G2_SIZE || proof.pi_c.len() != G1_SIZE {
        return Err(VerificationError::InvalidProofStructure);
    }
    if !vk_shape_check(vk) {
        return Err(VerificationError::InvalidVerificationKey);
    }
    if public_inputs.len() != vk.ic.len() - 1 {
        return Err(VerificationError::InvalidPublicInputs);
    }
    let scalars = match parse_public_signals(public_inputs) {
        Ok(s) => s,
        Err(e) => {
            proof {
                assert(!signals_ok(views(public_inputs@))) by {
                    if signals_ok(views(public_inputs@)) {
                        assert forall|i: int| 0 <= i < public_inputs@.len() implies signal_ok(#[trigger] public_inputs@[i]@) by {
                            assert(views(public_inputs@)[i] == public_inputs@[i]@);
                        }
                    }
                }
            }
            return Err(e);
        },
    };
    proof {
        assert forall|i: int| 0 <= i < views(public_inputs@).len() implies signal_ok(#[trigger] views(public_inputs@)[i]) by {
            assert(views(public_inputs@)[i] == public_inputs@[i]@);
        }
        assert(views(scalars@) =~= views(public_inputs@));
        assert(signals_ok(views(public_inputs@)));
        assert(views(public_inputs@).len() + 1 == vk.ic@.len());
    }
    let pvk = match parse_verification_key(env, vk) {
        Ok(p) => p,
        Err(e) => {
            assert(!vk_points_ok(*vk));
            assert(groth16_outcome(*vk, *proof, views(public_inputs@)) == Err::<bool, VerificationError>(VerificationError::InvalidPoint));
            return Err(e);
        },
    };
    let pproof = match parse_proof(env, proof) {
        Ok(p) => p,
        Err(e) => {
            assert(!proof_points_ok(*proof));
            assert(groth16_outcome(*vk, *proof, views(public_inputs@)) == Err::<bool, VerificationError>(VerificationError::InvalidPoint));
            return Err(e);
        },
    };
    assert(views(pvk.ic@) == views(vk.ic@));
    assert(proof_points_ok(*proof));
    assert(vk_points_ok(*vk));
    assert(pairing_reached(*vk, *proof, views(public_inputs@)));
    assert(g2_accepted(pvk.beta@) && g2_accepted(pvk.gamma@) && g2_accepted(pvk.delta@) && g2_accepted(pproof.b@));
    assert(views(public_inputs@).len() == public_inputs@.len());
    let res = verify_groth16_proof(env, &pvk, &pproof, &scalars);
    assert(res == proof_outcome(pvk, pproof, views(public_inputs@)));
    assert(pairing_holds(pvk, pproof, views(public_inputs@)) == groth16_equation(
        proof.pi_a@,
        proof.pi_b@,
        proof.pi_c@,
        vk.alpha@,
        vk.beta@,
        vk.gamma@,
        vk.delta@,
        views(vk.ic@),
        views(public_inputs@),
    ));
    match res {
        Ok(true) => Ok(true),
        Ok(false) => Err(VerificationError::PairingCheckFailed),
        Err(e) => Err(e),
    }
}

/// Checking a parsed proof against a count of scalars that does not match
/// the key is refused with `InvalidPublicInputs` whatever the points and
/// scalars hold, before any curve arithmetic.
pub proof fn lemma_parsed_input_count_checked_first(vk: ParsedVK, proof: ParsedProof, scalars: Seq<Seq<u8>>)
    requires
        scalars.len() + 1 != vk.ic@.len(),
    ensures
        proof_outcome(vk, proof, scalars) == Err::<bool, VerificationError>(VerificationError::InvalidPublicInputs),
{
}

/// Whether a proof verifies against a key, when there is one.
pub open spec fn proof_accepted(vk: Option<VerificationKey>, proof: Groth16Proof, inputs: Seq<Seq<u8>>) -> bool {
    vk is Some && groth16_outcome(vk->Some_0, proof, inputs) == Ok::<bool, VerificationError>(true)
}

/// Where verification against the key, if any, gets past the checks that
/// read no point, the key and the proof hold only G2 points the host accepts.
pub open spec fn admissible(vk: Option<VerificationKey>, proof: Groth16Proof, inputs: Seq<Seq<u8>>) -> bool {
    vk is Some && pairing_reached(vk->Some_0, proof, inputs) ==> key_admissible(vk->Some_0) && proof_admissible(proof)
}

/// Whether a proof verifies against a key, when there is one.
pub fn accepts(env: &Env, vk: &Option<VerificationKey>, proof: &Groth16Proof, public_inputs: &Vec<Vec<u8>>) -> (r: bool)
    requires
        admissible(*vk, *proof, views(public_inputs@)),
    ensures
        r == proof_accepted(*vk, *proof, views(public_inputs@)),
{
    match vk {
        Some(k) => match verify_groth16(env, k, proof, public_inputs) {
            Ok(true) => true,
            _ => false,
        },
        None => false,
    }
}

/// A count of public inputs that does not match the key is refused with
/// `InvalidPublicInputs` whatever the points and signals hold: the count is
/// checked right after the lengths, before any signal or point is read and
/// before any curve arithmetic.
pub proof fn lemma_input_count_checked_first(vk: VerificationKey, proof: Groth16Proof, inputs: Seq<Seq<u8>>)
    requires
        proof_shape_ok(proof),
        vk_shape_ok(vk),
        inputs.len() + 1 != vk.ic@.len(),
    ensures
        groth16_outcome(vk, proof, inputs) == Err::<bool, VerificationError>(VerificationError::InvalidPublicInputs),
{
}

} // verus!
