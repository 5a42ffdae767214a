use vstd::prelude::*;

verus! {

/// A player's identity: the bytes of the account's address.
pub type PlayerId = Vec<u8>;

/// Compares two byte strings.
pub fn bytes_equal(a: &Vec<u8>, b: &Vec<u8>) -> (r: bool)
    ensures
        r == (a@ == b@),
{
    if a.len() != b.len() {
        return false;
    }
    let mut i: usize = 0;
    while i < a.len()
        invariant
            a@.len() == b@.len(),
            0 <= i <= a@.len(),
            forall|k: int| 0 <= k < i ==> a@[k] == b@[k],
        decreases a@.len() - i,
    {
        if a[i] != b[i] {
            return false;
        }
        i = i + 1;
    }
    assert(a@ =~= b@);
    true
}

/// A copy of a byte string.
pub fn copy_bytes(a: &Vec<u8>) -> (r: Vec<u8>)
    ensures
        r@ == a@,
{
    let mut r: Vec<u8> = Vec::new();
    let mut i: usize = 0;
    while i < a.len()
        invariant
            0 <= i <= a@.len(),
            r@ == a@.subrange(0, i as int),
        decreases a@.len() - i,
    {
        r.push(a[i]);
        i = i + 1;
    }
    assert(r@ =~= a@);
    r
}

/// The unsigned integer that a byte string holds, most significant byte first.
pub open spec fn be_value(s: Seq<u8>) -> nat
    decreases s.len(),
{
    if s.len() == 0 {
        0
    } else {
        be_value(s.drop_last()) * 256 + s.last() as nat
    }
}

/// At most the first four bytes of a string.
pub open spec fn prefix4(s: Seq<u8>) -> Seq<u8> {
    if s.len() <= 4 {
        s
    } else {
        s.subrange(0, 4)
    }
}

/// The value of at most four bytes fits in 32 bits.
pub proof fn lemma_be_value_bound(s: Seq<u8>)
    ensures
        be_value(s) < pow256(s.len()),
    decreases s.len(),
{
    if s.len() > 0 {
        lemma_be_value_bound(s.drop_last());
        assert(pow256(s.len()) == pow256((s.len() - 1) as nat) * 256);
    }
}

/// `256` raised to `n`.
pub open spec fn pow256(n: nat) -> nat
    decreases n,
{
    if n == 0 {
        1
    } else {
        pow256((n - 1) as nat) * 256
    }
}

/// Reads up to the first four bytes of a signal as a big-endian integer.
pub fn bytes_to_u32(bytes: &Vec<u8>) -> (r: u32)
    ensures
        r == be_value(prefix4(bytes@)),
{
    let len: usize = if bytes.len() < 4 {
        bytes.len()
    } else {
        4
    };
    let mut result: u32 = 0;
    let mut i: usize = 0;
    while i < len
        invariant
            len <= 4,
            len <= bytes@.len(),
            prefix4(bytes@) == bytes@.subrange(0, len as int),
            0 <= i <= len,
            result == be_value(bytes@.subrange(0, i as int)),
        decreases len - i,
    {
        proof {
            let s = bytes@.subrange(0, i as int);
            lemma_be_value_bound(s);
            assert(pow256(0) == 1);
            assert(pow256(1) == 256);
            assert(pow256(2) == 65536);
            assert(pow256(3) == 16777216);
            assert(bytes@.subrange(0, i + 1).drop_last() =~= s);
        }
        result = result * 256 + bytes[i] as u32;
        i = i + 1;
    }
    result
}

/// Reads up to the first four bytes of a signal as a big-endian two's-complement integer.
pub fn bytes_to_i32(bytes: &Vec<u8>) -> (r: i32)
    ensures
        r == (be_value(prefix4(bytes@)) as u32) as i32,
{
    let u = bytes_to_u32(bytes);
    u as i32
}

} // verus!
