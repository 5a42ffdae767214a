use vstd::prelude::*;

verus! {

/// Number of cards in a Dead Man's Draw deck: four suits of ten ranks.
pub const DECK_SIZE: u32 = 40;

/// Number of ranks in each suit.
pub const RANKS_PER_SUIT: u32 = 10;

/// Errors of the Dead Man's Draw game.
#[derive(Clone, Copy, Debug, PartialEq, Eq, Structural)]
pub enum Error {
    NotInitialized,
    AlreadyInitialized,
    NotInPhase,
    NotPlayer,
    InvalidProof,
    InvalidCommitment,
    GameNotFound,
    NotYourTurn,
    InvalidMove,
    InvalidCard,
}

/// A card: `suit` in `0..4` (Swords, Coins, Cups, Wands), `rank` in `1..=10`.
#[derive(Clone, Copy, Debug, PartialEq, Eq, Structural)]
pub struct Card {
    pub suit: u32,
    pub rank: u32,
}

/// A card id names a card of the deck.
pub open spec fn valid_card_id(id: u32) -> bool {
    id < DECK_SIZE
}

/// A card whose suit and rank lie in the deck.
pub open spec fn valid_card(c: Card) -> bool {
    c.suit < DECK_SIZE / RANKS_PER_SUIT && 1 <= c.rank <= RANKS_PER_SUIT
}

/// The card that a valid id stands for.
pub open spec fn card_of_id(id: u32) -> Card {
    Card { suit: id / RANKS_PER_SUIT, rank: (id % RANKS_PER_SUIT + 1) as u32 }
}

/// The id of a card.
pub open spec fn id_of_card(c: Card) -> int {
    c.suit * RANKS_PER_SUIT + c.rank - 1
}

impl Card {
    /// Decodes a card id: `suit = id / 10`, `rank = id % 10 + 1`.
    pub fn from_id(card_id: u32) -> (r: Result<Card, Error>)
        ensures
            valid_card_id(card_id) ==> r == Ok::<Card, Error>(card_of_id(card_id)),
            !valid_card_id(card_id) ==> r == Err::<Card, Error>(Error::InvalidCard),
            r is Ok ==> valid_card(r->Ok_0),
    {
        if card_id >= DECK_SIZE {
            return Err(Error::InvalidCard);
        }
        let suit = card_id / RANKS_PER_SUIT;
        let rank = card_id % RANKS_PER_SUIT + 1;
        Ok(Card { suit, rank })
    }

    /// The id of this card: `suit * 10 + rank - 1`.
    pub fn to_id(&self) -> (r: u32)
        requires
            self.rank >= 1,
            id_of_card(*self) <= u32::MAX,
        ensures
            r == id_of_card(*self),
            valid_card(*self) ==> valid_card_id(r),
    {
        self.suit * RANKS_PER_SUIT + (self.rank - 1)
    }

    /// The points a card is worth: its rank.
    pub fn value(&self) -> (r: u32)
        ensures
            r == self.rank,
    {
        self.rank
    }
}

/// Decoding a valid card id and encoding the card gives the id back.
pub proof fn lemma_card_id_round_trip(id: u32)
    requires
        valid_card_id(id),
    ensures
        valid_card(card_of_id(id)),
        id_of_card(card_of_id(id)) == id,
{
}

/// Encoding a valid card and decoding its id gives the card back.
pub proof fn lemma_card_round_trip(c: Card)
    requires
        valid_card(c),
    ensures
        valid_card_id(id_of_card(c) as u32),
        card_of_id(id_of_card(c) as u32) == c,
{
}

} // verus!
