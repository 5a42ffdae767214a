use vstd::prelude::*;
use soroban_sdk::Env;
use crate::digest::{keccak256, keccak256_of};

verus! {

/// Cards in a poker deck.
pub const POKER_DECK: u32 = 52;

/// Community cards dealt.
pub const COMMUNITY_CARDS: usize = 5;

/// Draws that a Fisher-Yates shuffle of the deck takes.
pub const SHUFFLE_DRAWS: usize = 51;

/// The ordered deck `0, 1, ..., 51`.
pub open spec fn fresh_deck() -> Seq<u32> {
    Seq::new(POKER_DECK as nat, |i: int| i as u32)
}

/// `s` with the cards at `i` and `j` exchanged.
pub open spec fn swap(s: Seq<u32>, i: int, j: int) -> Seq<u32> {
    s.update(i, s[j]).update(j, s[i])
}

/// The deck after the first `k` steps of a Fisher-Yates shuffle: step `k`
/// exchanges the card at `52 - k` with the card at `draws[k - 1]`.
pub open spec fn shuffle_steps(draws: Seq<u64>, k: nat) -> Seq<u32>
    decreases k,
{
    if k == 0 {
        fresh_deck()
    } else {
        swap(shuffle_steps(draws, (k - 1) as nat), POKER_DECK - k, draws[k - 1] as int)
    }
}

/// Draws fit a Fisher-Yates shuffle: 51 of them, the one of step `k` at
/// most `52 - k`.
pub open spec fn draws_ok(draws: Seq<u64>) -> bool {
    draws.len() == SHUFFLE_DRAWS && forall|k: int| 0 <= k < SHUFFLE_DRAWS ==> #[trigger] draws[k] <= 51 - k
}

/// Every card of `s` is in the deck and no card appears twice.
pub open spec fn distinct_cards(s: Seq<u32>) -> bool {
    &&& forall|a: int| 0 <= a < s.len() ==> #[trigger] s[a] < POKER_DECK
    &&& forall|a: int, b: int| 0 <= a < s.len() && 0 <= b < s.len() && a != b ==> #[trigger] s[a] != #[trigger] s[b]
}

/// The seed of the community cards of a session: the Keccak-256 digest of
/// the session id, big-endian.
pub fn community_seed(env: &Env, session_id: u32) -> (r: Vec<u8>)
    ensures
        r@ == keccak256_of(u32_be(session_id)),
{
    let material = u32_to_be(session_id);
    keccak256(env, &material)
}

/// The seed of the community cards bound to both players' commitments:
/// the Keccak-256 digest of `p1_commitment || p2_commitment || session_id`.
pub fn community_seed_secure(env: &Env, session_id: u32, p1_commitment: &Vec<u8>, p2_commitment: &Vec<u8>) -> (r: Vec<u8>)
    requires
        p1_commitment@.len() + p2_commitment@.len() + 4 <= u32::MAX,
    ensures
        r@ == keccak256_of(p1_commitment@ + p2_commitment@ + u32_be(session_id)),
{
    let mut material: Vec<u8> = Vec::new();
    let mut i: usize = 0;
    while i < p1_commitment.len()
        invariant
            0 <= i <= p1_commitment@.len(),
            material@ == p1_commitment@.subrange(0, i as int),
        decreases p1_commitment@.len() - i,
    {
        material.push(p1_commitment[i]);
        i = i + 1;
    }
    let mut j: usize = 0;
    while j < p2_commitment.len()
        invariant
            0 <= j <= p2_commitment@.len(),
            material@ == p1_commitment@ + p2_commitment@.subrange(0, j as int),
        decreases p2_commitment@.len() - j,
    {
        material.push(p2_commitment[j]);
        j = j + 1;
    }
    assert(p1_commitment@.subrange(0, p1_commitment@.len() as int) =~= p1_commitment@);
    assert(p2_commitment@.subrange(0, p2_commitment@.len() as int) =~= p2_commitment@);
    let id = u32_to_be(session_id);
    material.push(id[0]);
    material.push(id[1]);
    material.push(id[2]);
    material.push(id[3]);
    assert(material@ =~= p1_commitment@ + p2_commitment@ + u32_be(session_id));
    keccak256(env, &material)
}

/// The four big-endian bytes of a 32-bit integer.
pub open spec fn u32_be(x: u32) -> Seq<u8> {
    seq![(x / 0x1000000) as u8, ((x / 0x10000) % 256) as u8, ((x / 0x100) % 256) as u8, (x % 256) as u8]
}

/// The four big-endian bytes of a 32-bit integer.
pub fn u32_to_be(x: u32) -> (r: Vec<u8>)
    ensures
        r@ == u32_be(x),
{
    let r: Vec<u8> = vec![(x / 0x1000000) as u8, ((x / 0x10000) % 256) as u8, ((x / 0x100) % 256) as u8, (x % 256) as u8];
    assert(r@ =~= u32_be(x));
    r
}

/// Deals the community cards: shuffles the deck `0..52` by Fisher-Yates,
/// step `k` exchanging the card at `52 - k` with the card at the `k`-th
/// draw, and returns the first five cards, all distinct.
pub fn deal_community_cards(draws: &Vec<u64>) -> (r: Vec<u32>)
    requires
        draws_ok(draws@),
    ensures
        r@ == shuffle_steps(draws@, SHUFFLE_DRAWS as nat).subrange(0, COMMUNITY_CARDS as int),
        r@.len() == COMMUNITY_CARDS,
        distinct_cards(r@),
{
    let mut deck: Vec<u32> = Vec::new();
    let mut c: u32 = 0;
    while c < POKER_DECK
        invariant
            c <= POKER_DECK,
            deck@ == fresh_deck().subrange(0, c as int),
        decreases POKER_DECK - c,
    {
        deck.push(c);
        c = c + 1;
        assert(deck@ =~= fresh_deck().subrange(0, c as int));
    }
    assert(deck@ =~= fresh_deck());
    let mut k: usize = 0;
    while k < SHUFFLE_DRAWS
        invariant
            draws_ok(draws@),
            0 <= k <= SHUFFLE_DRAWS,
            deck@ == shuffle_steps(draws@, k as nat),
            deck@.len() == POKER_DECK,
            distinct_cards(deck@),
        decreases SHUFFLE_DRAWS - k,
    {
        let i: usize = 51 - k;
        let j: usize = draws[k] as usize;
        assert(draws@[k as int] <= 51 - k);
        let a = deck[i];
        let b = deck[j];
        let ghost before = deck@;
        deck.set(i, b);
        deck.set(j, a);
        proof {
            assert(deck@ =~= swap(before, i as int, j as int));
            assert forall|x: int, y: int| 0 <= x < deck@.len() && 0 <= y < deck@.len() && x != y
                implies #[trigger] deck@[x] != #[trigger] deck@[y] by {
                let sx = if x == i { j as int } else if x == j { i as int } else { x };
                let sy = if y == i { j as int } else if y == j { i as int } else { y };
                assert(deck@[x] == before[sx]);
                assert(deck@[y] == before[sy]);
            }
            assert forall|x: int| 0 <= x < deck@.len() implies #[trigger] deck@[x] < POKER_DECK by {
                let sx = if x == i { j as int } else if x == j { i as int } else { x };
                assert(deck@[x] == before[sx]);
            }
        }
        k = k + 1;
    }
    let mut community: Vec<u32> = Vec::new();
    let mut t: usize = 0;
    while t < COMMUNITY_CARDS
        invariant
            0 <= t <= COMMUNITY_CARDS,
            deck@.len() == POKER_DECK,
            community@ == deck@.subrange(0, t as int),
        decreases COMMUNITY_CARDS - t,
    {
        community.push(deck[t]);
        t = t + 1;
    }
    community
}

} // verus!
