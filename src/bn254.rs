use vstd::prelude::*;
use soroban_sdk::crypto::bn254::{Bn254Fr, Bn254G1Affine, Bn254G2Affine};
use soroban_sdk::{BytesN, Env};
use crate::bytes::be_value;

verus! {

/// The modulus `p` of the BN254 base field, big-endian.
pub open spec fn fp_modulus() -> Seq<u8> {
    seq![
        0x30u8, 0x64, 0x4e, 0x72, 0xe1, 0x31, 0xa0, 0x29, 0xb8, 0x50, 0x45, 0xb6, 0x81, 0x81, 0x58, 0x5d,
        0x97, 0x81, 0x6a, 0x91, 0x68, 0x71, 0xca, 0x8d, 0x3c, 0x20, 0x8c, 0x16, 0xd8, 0x7c, 0xfd, 0x47,
    ]
}

/// The order `r` of the BN254 groups (the scalar field modulus), big-endian.
pub open spec fn fr_modulus() -> Seq<u8> {
    seq![
        0x30u8, 0x64, 0x4e, 0x72, 0xe1, 0x31, 0xa0, 0x29, 0xb8, 0x50, 0x45, 0xb6, 0x81, 0x81, 0x58, 0x5d,
        0x28, 0x33, 0xe8, 0x48, 0x79, 0xb9, 0x70, 0x91, 0x43, 0xe1, 0xf5, 0x93, 0xf0, 0x00, 0x00, 0x01,
    ]
}

/// The base field modulus as bytes.
pub fn fp_modulus_bytes() -> (r: Vec<u8>)
    ensures
        r@ == fp_modulus(),
{
    let r: Vec<u8> = vec![
        0x30u8, 0x64, 0x4e, 0x72, 0xe1, 0x31, 0xa0, 0x29, 0xb8, 0x50, 0x45, 0xb6, 0x81, 0x81, 0x58, 0x5d,
        0x97, 0x81, 0x6a, 0x91, 0x68, 0x71, 0xca, 0x8d, 0x3c, 0x20, 0x8c, 0x16, 0xd8, 0x7c, 0xfd, 0x47,
    ];
    assert(r@ =~= fp_modulus());
    r
}

/// The scalar field modulus as bytes.
pub fn fr_modulus_bytes() -> (r: Vec<u8>)
    ensures
        r@ == fr_modulus(),
{
    let r: Vec<u8> = vec![
        0x30u8, 0x64, 0x4e, 0x72, 0xe1, 0x31, 0xa0, 0x29, 0xb8, 0x50, 0x45, 0xb6, 0x81, 0x81, 0x58, 0x5d,
        0x28, 0x33, 0xe8, 0x48, 0x79, 0xb9, 0x70, 0x91, 0x43, 0xe1, 0xf5, 0x93, 0xf0, 0x00, 0x00, 0x01,
    ];
    assert(r@ =~= fr_modulus());
    r
}

/// `a` comes before `b` in lexicographic order; on byte strings of one
/// length this is the order of their big-endian values.
pub open spec fn lex_lt(a: Seq<u8>, b: Seq<u8>) -> bool {
    exists|i: int| 0 <= i < a.len() && i < b.len() && a.subrange(0, i) == b.subrange(0, i) && #[trigger] a[i] < b[i]
}

/// A 32-byte big-endian element of the base field: below `p`.
pub open spec fn fp_ok(s: Seq<u8>) -> bool {
    s.len() == 32 && lex_lt(s, fp_modulus())
}

/// The 32-byte coordinate of a point encoding that starts at byte `k`.
pub open spec fn coord(s: Seq<u8>, k: int) -> Seq<u8> {
    s.subrange(32 * k, 32 * k + 32)
}

/// A well-formed G1 encoding: `x || y`, 64 bytes, each coordinate below `p`
/// (so the two flag bits of the first byte are clear).
pub open spec fn g1_encoding(s: Seq<u8>) -> bool {
    s.len() == 64 && fp_ok(coord(s, 0)) && fp_ok(coord(s, 1))
}

/// A well-formed G2 encoding: 128 bytes, four base field coordinates below `p`.
pub open spec fn g2_encoding(s: Seq<u8>) -> bool {
    s.len() == 128 && fp_ok(coord(s, 0)) && fp_ok(coord(s, 1)) && fp_ok(coord(s, 2)) && fp_ok(coord(s, 3))
}

/// A 32-byte big-endian scalar below the group order `r`.
pub open spec fn scalar_ok(s: Seq<u8>) -> bool {
    s.len() == 32 && lex_lt(s, fr_modulus())
}

/// Whether the point that a well-formed G1 encoding names lies on the curve.
pub uninterp spec fn g1_on_curve(p: Seq<u8>) -> bool;

/// The G1 sum of two points.
pub uninterp spec fn g1_sum(a: Seq<u8>, b: Seq<u8>) -> Seq<u8>;

/// The G1 point times a 32-byte big-endian scalar.
pub uninterp spec fn g1_scaled(p: Seq<u8>, scalar: Seq<u8>) -> Seq<u8>;

/// Whether the product of the pairings of the G1 points with the G2 points,
/// pair by pair, is the identity of the target group.
pub uninterp spec fn pairing_is_identity(g1: Seq<Seq<u8>>, g2: Seq<Seq<u8>>) -> bool;

/// The base field modulus `p` as a number.
pub open spec fn fp_p() -> int {
    be_value(fp_modulus()) as int
}

/// The group order `r` as a number.
pub open spec fn fr_r() -> nat {
    be_value(fr_modulus())
}

/// `b` raised to `e`, modulo `p`.
pub open spec fn fp_pow(b: int, e: nat) -> int
    decreases e,
{
    if e == 0 {
        1
    } else {
        (fp_pow(b, (e - 1) as nat) * b) % fp_p()
    }
}

/// The inverse of a nonzero base field element: `a^(p - 2)`.
pub open spec fn fp_inv(a: int) -> int {
    fp_pow(a % fp_p(), (fp_p() - 2) as nat)
}

/// An element `c0 + c1 * u` of the quadratic extension, `u^2 = -1`.
pub type Fp2 = (int, int);

/// Sum in the quadratic extension.
pub open spec fn f2_add(a: Fp2, b: Fp2) -> Fp2 {
    ((a.0 + b.0) % fp_p(), (a.1 + b.1) % fp_p())
}

/// Difference in the quadratic extension.
pub open spec fn f2_sub(a: Fp2, b: Fp2) -> Fp2 {
    ((a.0 - b.0) % fp_p(), (a.1 - b.1) % fp_p())
}

/// Product in the quadratic extension.
pub open spec fn f2_mul(a: Fp2, b: Fp2) -> Fp2 {
    ((a.0 * b.0 - a.1 * b.1) % fp_p(), (a.0 * b.1 + a.1 * b.0) % fp_p())
}

/// Inverse of a nonzero element of the quadratic extension.
pub open spec fn f2_inv(a: Fp2) -> Fp2 {
    let n = fp_inv(a.0 * a.0 + a.1 * a.1);
    ((a.0 * n) % fp_p(), (-a.1 * n) % fp_p())
}

/// The constant `3 / (9 + u)` of the twist `y^2 = x^3 + b'` that holds G2.
pub open spec fn twist_b() -> Fp2 {
    f2_mul((3, 0), f2_inv((9, 1)))
}

/// A point of the twist in affine coordinates; `None` is the identity.
pub type G2Point = Option<(Fp2, Fp2)>;

/// The G2 point that a 128-byte encoding `x.c1 || x.c0 || y.c1 || y.c0`
/// names; all zeros name the identity.
pub open spec fn g2_decode(s: Seq<u8>) -> G2Point {
    if s == Seq::new(128, |i: int| 0u8) {
        None
    } else {
        Some((
            (be_value(coord(s, 1)) as int, be_value(coord(s, 0)) as int),
            (be_value(coord(s, 3)) as int, be_value(coord(s, 2)) as int),
        ))
    }
}

/// Whether an affine point lies on the twist.
pub open spec fn on_twist(x: Fp2, y: Fp2) -> bool {
    f2_mul(y, y) == f2_add(f2_mul(f2_mul(x, x), x), twist_b())
}

/// The sum of two points of the twist (the chord-and-tangent law).
pub open spec fn g2_add(a: G2Point, b: G2Point) -> G2Point {
    match (a, b) {
        (None, _) => b,
        (_, None) => a,
        (Some((x1, y1)), Some((x2, y2))) => {
            if x1 == x2 {
                if f2_add(y1, y2) == (0int, 0int) {
                    None
                } else {
                    let l = f2_mul(f2_mul((3, 0), f2_mul(x1, x1)), f2_inv(f2_add(y1, y1)));
                    let x3 = f2_sub(f2_sub(f2_mul(l, l), x1), x2);
                    Some((x3, f2_sub(f2_mul(l, f2_sub(x1, x3)), y1)))
                }
            } else {
                let l = f2_mul(f2_sub(y2, y1), f2_inv(f2_sub(x2, x1)));
                let x3 = f2_sub(f2_sub(f2_mul(l, l), x1), x2);
                Some((x3, f2_sub(f2_mul(l, f2_sub(x1, x3)), y1)))
            }
        },
    }
}

/// `n` times a point of the twist.
pub open spec fn g2_times(n: nat, a: G2Point) -> G2Point
    decreases n,
{
    if n == 0 {
        None
    } else {
        g2_add(g2_times((n - 1) as nat, a), a)
    }
}

/// A G2 encoding that the host accepts: the identity, or a point on the
/// twist whose order divides `r` (the prime-order subgroup).
#[verifier::opaque]
pub open spec fn g2_accepted(s: Seq<u8>) -> bool {
    match g2_decode(s) {
        None => true,
        Some((x, y)) => on_twist(x, y) && g2_times(fr_r(), g2_decode(s)) is None,
    }
}

/// A well-formed G2 encoding of a point that the host accepts, or any
/// encoding that is not well-formed (which the parsers refuse first).
pub open spec fn g2_admissible(s: Seq<u8>) -> bool {
    g2_encoding(s) ==> g2_accepted(s)
}

/// A well-formed G1 encoding of a point on the curve.
pub open spec fn g1_valid(p: Seq<u8>) -> bool {
    g1_encoding(p) && g1_on_curve(p)
}

/// The `len`-byte big-endian encoding of `n` modulo `256^len`.
pub open spec fn be_bytes(n: nat, len: nat) -> Seq<u8>
    decreases len,
{
    if len == 0 {
        Seq::empty()
    } else {
        be_bytes(n / 256, (len - 1) as nat).push((n % 256) as u8)
    }
}

/// The negation `p - y` of a base field element, zero staying zero.
pub open spec fn fp_neg(y: Seq<u8>) -> Seq<u8> {
    if be_value(y) == 0 {
        y
    } else {
        be_bytes((be_value(fp_modulus()) - be_value(y)) as nat, 32)
    }
}

/// The negation of a G1 point: `(x, y)` to `(x, p - y)`; the identity stays.
pub open spec fn g1_neg(p: Seq<u8>) -> Seq<u8> {
    coord(p, 0) + fp_neg(coord(p, 1))
}

/// The views of a list of byte strings.
pub open spec fn views(v: Seq<Vec<u8>>) -> Seq<Seq<u8>> {
    v.map_values(|b: Vec<u8>| b@)
}

/// Whether `a` is below `b` in lexicographic order.
pub fn bytes_lt(a: &Vec<u8>, b: &Vec<u8>) -> (r: bool)
    requires
        a@.len() == b@.len(),
    ensures
        r == lex_lt(a@, b@),
{
    let mut i: usize = 0;
    while i < a.len()
        invariant
            a@.len() == b@.len(),
            0 <= i <= a@.len(),
            a@.subrange(0, i as int) == b@.subrange(0, i as int),
        decreases a@.len() - i,
    {
        if a[i] != b[i] {
            let r = a[i] < b[i];
            proof {
                if r {
                    assert(a@[i as int] < b@[i as int]);
                } else {
                    assert forall|j: int| 0 <= j < a@.len() && j < b@.len() && a@.subrange(0, j) == b@.subrange(0, j)
                        implies !(#[trigger] a@[j] < b@[j]) by {
                        if j < i {
                            assert(a@[j] == a@.subrange(0, i as int)[j]);
                            assert(b@[j] == b@.subrange(0, i as int)[j]);
                        } else if j > i {
                            assert(a@[i as int] == a@.subrange(0, j)[i as int]);
                            assert(b@[i as int] == b@.subrange(0, j)[i as int]);
                        }
                    }
                }
            }
            return r;
        }
        proof {
            assert(a@.subrange(0, i + 1) =~= a@.subrange(0, i as int).push(a@[i as int]));
            assert(b@.subrange(0, i + 1) =~= b@.subrange(0, i as int).push(b@[i as int]));
        }
        i = i + 1;
    }
    proof {
        assert forall|j: int| 0 <= j < a@.len() && j < b@.len() && a@.subrange(0, j) == b@.subrange(0, j)
            implies !(#[trigger] a@[j] < b@[j]) by {
            assert(a@[j] == a@.subrange(0, i as int)[j]);
            assert(b@[j] == b@.subrange(0, i as int)[j]);
        }
    }
    false
}

/// The 32-byte coordinate of a point encoding that starts at byte `32 * k`.
pub fn coordinate(p: &Vec<u8>, k: usize) -> (r: Vec<u8>)
    requires
        k < 4,
        32 * k + 32 <= p@.len(),
    ensures
        r@ == coord(p@, k as int),
{
    let mut r: Vec<u8> = Vec::new();
    let start = 32 * k;
    let end = start + 32;
    let mut i: usize = start;
    while i < end
        invariant
            start == 32 * k,
            end == start + 32,
            start + 32 <= p@.len(),
            start <= i <= start + 32,
            r@ == p@.subrange(start as int, i as int),
        decreases end - i,
    {
        r.push(p[i]);
        i = i + 1;
    }
    r
}

/// Whether a 32-byte string is an element of the base field.
pub fn is_fp(s: &Vec<u8>) -> (r: bool)
    ensures
        r == fp_ok(s@),
{
    if s.len() != 32 {
        return false;
    }
    let m = fp_modulus_bytes();
    bytes_lt(s, &m)
}

/// Whether bytes are a well-formed G1 encoding.
pub fn is_g1_encoding(p: &Vec<u8>) -> (r: bool)
    ensures
        r == g1_encoding(p@),
{
    if p.len() != 64 {
        return false;
    }
    is_fp(&coordinate(p, 0)) && is_fp(&coordinate(p, 1))
}

/// Whether bytes are a well-formed G2 encoding.
pub fn is_g2_encoding(p: &Vec<u8>) -> (r: bool)
    ensures
        r == g2_encoding(p@),
{
    if p.len() != 128 {
        return false;
    }
    is_fp(&coordinate(p, 0)) && is_fp(&coordinate(p, 1)) && is_fp(&coordinate(p, 2)) && is_fp(&coordinate(p, 3))
}

/// Relies on `Bn254::g1_is_on_curve`: whether the point lies on the curve.
/// The host traps on an encoding with a coordinate at or above `p`, which
/// `requires` excludes.
#[verifier::external_body]
pub(crate) fn g1_is_on_curve(env: &Env, p: &Vec<u8>) -> (r: bool)
    requires
        g1_encoding(p@),
    ensures
        r == g1_on_curve(p@),
{
    let mut a = [0u8; 64];
    a.copy_from_slice(p.as_slice());
    env.crypto().bn254().g1_is_on_curve(&Bn254G1Affine::from_array(env, &a))
}

/// Relies on `Bn254::g1_add`: the sum of two points on the curve, returned
/// in the same encoding and on the curve.
#[verifier::external_body]
pub(crate) fn g1_add(env: &Env, p0: &Vec<u8>, p1: &Vec<u8>) -> (r: Vec<u8>)
    requires
        g1_valid(p0@),
        g1_valid(p1@),
    ensures
        r@ == g1_sum(p0@, p1@),
        g1_valid(r@),
{
    let mut a = [0u8; 64];
    a.copy_from_slice(p0.as_slice());
    let mut b = [0u8; 64];
    b.copy_from_slice(p1.as_slice());
    let bn = env.crypto().bn254();
    bn.g1_add(&Bn254G1Affine::from_array(env, &a), &Bn254G1Affine::from_array(env, &b)).to_array().to_vec()
}

/// Relies on `Bn254::g1_mul`: a point on the curve times a scalar below
/// the group order, returned in the same encoding and on the curve.
#[verifier::external_body]
pub(crate) fn g1_mul(env: &Env, p: &Vec<u8>, scalar: &Vec<u8>) -> (r: Vec<u8>)
    requires
        g1_valid(p@),
        scalar_ok(scalar@),
    ensures
        r@ == g1_scaled(p@, scalar@),
        g1_valid(r@),
{
    let mut a = [0u8; 64];
    a.copy_from_slice(p.as_slice());
    let mut s = [0u8; 32];
    s.copy_from_slice(scalar.as_slice());
    let fr = Bn254Fr::from_bytes(BytesN::from_array(env, &s));
    env.crypto().bn254().g1_mul(&Bn254G1Affine::from_array(env, &a), &fr).to_array().to_vec()
}

/// Relies on `Neg for &Bn254G1Affine`: keeps `x` and replaces `y` by `p - y`
/// (zero stays zero), so the negation of a point on the curve is a point on
/// the curve, its `y` again below `p`. It panics on a `y` at or above `p`,
/// which `requires` excludes.
#[verifier::external_body]
pub(crate) fn g1_negate(env: &Env, p: &Vec<u8>) -> (r: Vec<u8>)
    requires
        g1_encoding(p@),
    ensures
        r@ == g1_neg(p@),
        g1_valid(p@) ==> g1_valid(r@),
{
    let mut a = [0u8; 64];
    a.copy_from_slice(p.as_slice());
    (-&Bn254G1Affine::from_array(env, &a)).to_array().to_vec()
}

/// Relies on `Bn254::pairing_check`: whether the product of the pairings of
/// the points, pair by pair, is the identity. The host traps on lists of
/// unequal length or empty ones, on malformed or off-curve G1 points, and
/// on G2 points off the twist or outside the prime-order subgroup, all of
/// which `requires` excludes.
#[verifier::external_body]
pub(crate) fn pairing_check(env: &Env, g1: &Vec<Vec<u8>>, g2: &Vec<Vec<u8>>) -> (r: bool)
    requires
        g1@.len() == g2@.len(),
        g1@.len() > 0,
        forall|i: int| 0 <= i < g1@.len() ==> g1_valid(#[trigger] g1@[i]@),
        forall|i: int| 0 <= i < g2@.len() ==> g2_encoding(#[trigger] g2@[i]@) && g2_accepted(g2@[i]@),
    ensures
        r == pairing_is_identity(views(g1@), views(g2@)),
{
    let mut v1 = soroban_sdk::Vec::new(env);
    for p in g1.iter() {
        v1.push_back(Bn254G1Affine::from_array(env, &p.as_slice().try_into().unwrap()));
    }
    let mut v2 = soroban_sdk::Vec::new(env);
    for p in g2.iter() {
        v2.push_back(Bn254G2Affine::from_array(env, &p.as_slice().try_into().unwrap()));
    }
    env.crypto().bn254().pairing_check(v1, v2)
}

} // verus!
