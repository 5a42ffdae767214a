use vstd::prelude::*;
use soroban_sdk::Env;
use crate::bytes::{bytes_equal, copy_bytes, PlayerId};
use crate::card::{Card, Error, DECK_SIZE, RANKS_PER_SUIT};
use crate::digest::{sha256, sha256_of};

verus! {

/// Banked points that win the game.
pub const WIN_SCORE: u32 = 60;

/// Busts after which a player loses.
pub const MAX_BUSTS: u32 = 3;

/// Phases of a Dead Man's Draw session, in the order they are passed.
#[derive(Clone, Copy, Debug, PartialEq, Eq, Structural)]
pub enum Phase {
    Created,
    Commit,
    Reveal,
    Playing,
    Finished,
}

/// How a turn action left the game.
#[derive(Clone, Copy, Debug, PartialEq, Eq, Structural)]
pub enum TurnOutcome {
    /// The game goes on.
    Continue,
    /// The game is over; the settlement reports this winner.
    GameOver { player1_won: bool },
}

/// The record of one Dead Man's Draw session.
#[derive(Clone, Debug)]
pub struct GameState {
    pub session_id: u32,
    pub player1: PlayerId,
    pub player2: PlayerId,
    pub p1_deck_root: Vec<u8>,
    pub p2_deck_root: Vec<u8>,
    pub p1_commit: Option<Vec<u8>>,
    pub p2_commit: Option<Vec<u8>>,
    pub p1_revealed: bool,
    pub p2_revealed: bool,
    pub shared_seed: Vec<u8>,
    pub p1_score: u32,
    pub p2_score: u32,
    pub p1_busts: u32,
    pub p2_busts: u32,
    pub p1_cards_drawn: u32,
    pub p2_cards_drawn: u32,
    pub active_player: PlayerId,
    pub turn_cards: Vec<u32>,
    pub turn_suits_mask: u32,
    pub turn_score: u32,
    pub phase: Phase,
    pub turn_number: u32,
}

/// Who wins a finished game: a banked score at the threshold first, then the
/// bust limit (reached by the loser), then the higher score, ties to player 2.
pub open spec fn player1_wins(p1_score: u32, p2_score: u32, p1_busts: u32, p2_busts: u32) -> bool {
    if p1_score >= WIN_SCORE {
        true
    } else if p2_score >= WIN_SCORE {
        false
    } else if p2_busts >= MAX_BUSTS {
        true
    } else if p1_busts >= MAX_BUSTS {
        false
    } else {
        p1_score > p2_score
    }
}

/// The player who acts first: player 1 when byte 31, the last byte of a
/// SHA-256 digest of the shared entropy, is even (a shorter digest counts
/// as zero), else player 2.
pub open spec fn player1_starts(final_digest: Seq<u8>) -> bool {
    final_digest.len() <= 31 || final_digest[31] % 2 == 0
}

/// Why a commitment is refused, if it is.
pub open spec fn commit_error(s: GameState, player: Seq<u8>) -> Option<Error> {
    if s.phase != Phase::Commit {
        Some(Error::NotInPhase)
    } else if player == s.player1@ {
        if s.p1_commit is Some { Some(Error::InvalidCommitment) } else { None }
    } else if player == s.player2@ {
        if s.p2_commit is Some { Some(Error::InvalidCommitment) } else { None }
    } else {
        Some(Error::NotPlayer)
    }
}

/// Whether a stored commitment admits a preimage with this digest.
pub open spec fn opens(commit: Option<Vec<u8>>, revealed: bool, seed_digest: Seq<u8>) -> bool {
    commit is Some && !revealed && commit->Some_0@ == seed_digest
}

/// Why a reveal is refused, if it is, given the digest of the preimage.
pub open spec fn reveal_error(s: GameState, player: Seq<u8>, seed_digest: Seq<u8>) -> Option<Error> {
    if s.phase != Phase::Reveal {
        Some(Error::NotInPhase)
    } else if player == s.player1@ {
        if opens(s.p1_commit, s.p1_revealed, seed_digest) { None } else { Some(Error::InvalidCommitment) }
    } else if player == s.player2@ {
        if opens(s.p2_commit, s.p2_revealed, seed_digest) { None } else { Some(Error::InvalidCommitment) }
    } else {
        Some(Error::NotPlayer)
    }
}

/// Why a draw is refused, if it is.
pub open spec fn draw_error(s: GameState, card_id: u32, proof_len: nat) -> Option<Error> {
    if s.phase != Phase::Playing {
        Some(Error::NotInPhase)
    } else if proof_len == 0 {
        Some(Error::InvalidProof)
    } else if card_id >= DECK_SIZE {
        Some(Error::InvalidCard)
    } else if s.active_is_p1() && s.p1_cards_drawn >= DECK_SIZE {
        Some(Error::InvalidMove)
    } else if !s.active_is_p1() && s.p2_cards_drawn >= DECK_SIZE {
        Some(Error::InvalidMove)
    } else {
        None
    }
}

impl GameState {
    /// The invariant of a session record.
    pub open spec fn wf(&self) -> bool {
        &&& self.wf_core()
        &&& (self.phase != Phase::Finished ==> {
            &&& self.p1_busts < MAX_BUSTS
            &&& self.p2_busts < MAX_BUSTS
            &&& self.p1_score < WIN_SCORE
            &&& self.p2_score < WIN_SCORE
        })
    }

    /// The part of the invariant that holds in every phase.
    pub open spec fn wf_core(&self) -> bool {
        &&& self.player1@ != self.player2@
        &&& (self.active_player@ == self.player1@ || self.active_player@ == self.player2@)
        &&& self.p1_cards_drawn <= DECK_SIZE
        &&& self.p2_cards_drawn <= DECK_SIZE
        &&& self.turn_score <= RANKS_PER_SUIT * (self.p1_cards_drawn + self.p2_cards_drawn)
    }

    /// Whether player 1 holds the turn.
    pub open spec fn active_is_p1(&self) -> bool {
        self.active_player@ == self.player1@
    }

    /// The busts of the player who holds the turn.
    pub open spec fn active_busts(&self) -> u32 {
        if self.active_is_p1() { self.p1_busts } else { self.p2_busts }
    }

    /// Whether a bust by the player who holds the turn ends the game.
    pub open spec fn bust_ends_game(&self) -> bool {
        self.active_busts() + 1 >= MAX_BUSTS
    }

    /// The winner after a bust by the player who holds the turn ends the game.
    pub open spec fn player1_wins_after_bust(&self) -> bool {
        if self.active_is_p1() {
            player1_wins(self.p1_score, self.p2_score, (self.p1_busts + 1) as u32, self.p2_busts)
        } else {
            player1_wins(self.p1_score, self.p2_score, self.p1_busts, (self.p2_busts + 1) as u32)
        }
    }
}

/// The Dead Man's Draw game: each operation checks and updates one session record.
pub struct DeadMansDrawContract;

impl DeadMansDrawContract {
    /// Creates the record of a new session, in the commit phase with player 1
    /// to act; a player cannot play against themself.
    pub fn start_game(
        session_id: u32,
        player1: PlayerId,
        player2: PlayerId,
        p1_deck_root: Vec<u8>,
        p2_deck_root: Vec<u8>,
    ) -> (r: Result<GameState, Error>)
        ensures
            player1@ == player2@ <==> r == Err::<GameState, Error>(Error::InvalidMove),
            player1@ != player2@ ==> r is Ok,
            r is Ok ==> {
                let s = r->Ok_0;
                &&& s.wf()
                &&& s.session_id == session_id
                &&& s.player1 == player1
                &&& s.player2 == player2
                &&& s.p1_deck_root == p1_deck_root
                &&& s.p2_deck_root == p2_deck_root
                &&& s.p1_commit is None
                &&& s.p2_commit is None
                &&& !s.p1_revealed
                &&& !s.p2_revealed
                &&& s.shared_seed@.len() == 0
                &&& s.p1_score == 0 && s.p2_score == 0
                &&& s.p1_busts == 0 && s.p2_busts == 0
                &&& s.p1_cards_drawn == 0 && s.p2_cards_drawn == 0
                &&& s.active_player@ == player1@
                &&& s.turn_cards@.len() == 0
                &&& s.turn_suits_mask == 0
                &&& s.turn_score == 0
                &&& s.phase == Phase::Commit
                &&& s.turn_number == 1
            },
    {
        if bytes_equal(&player1, &player2) {
            return Err(Error::InvalidMove);
        }
        let active_player = copy_bytes(&player1);
        Ok(GameState {
            session_id,
            player1,
            player2,
            p1_deck_root,
            p2_deck_root,
            p1_commit: None,
            p2_commit: None,
            p1_revealed: false,
            p2_revealed: false,
            shared_seed: Vec::new(),
            p1_score: 0,
            p2_score: 0,
            p1_busts: 0,
            p2_busts: 0,
            p1_cards_drawn: 0,
            p2_cards_drawn: 0,
            active_player,
            turn_cards: Vec::new(),
            turn_suits_mask: 0,
            turn_score: 0,
            phase: Phase::Commit,
            turn_number: 1,
        })
    }

    /// Stores a player's commitment to their secret; once both players have
    /// committed, the session moves to the reveal phase. A player commits once.
    pub fn commit(state: &mut GameState, player: &PlayerId, hash: Vec<u8>) -> (r: Result<(), Error>)
        requires
            old(state).wf(),
        ensures
            final(state).wf(),
            commit_error(*old(state), player@) is Some ==> {
                &&& r == Err::<(), Error>(commit_error(*old(state), player@)->Some_0)
                &&& *final(state) == *old(state)
            },
            commit_error(*old(state), player@) is None ==> {
                &&& r is Ok
                &&& player@ == old(state).player1@ ==> *final(state) == (GameState {
                    p1_commit: Some(hash),
                    phase: final(state).phase,
                    ..*old(state)
                })
                &&& player@ != old(state).player1@ ==> *final(state) == (GameState {
                    p2_commit: Some(hash),
                    phase: final(state).phase,
                    ..*old(state)
                })
                &&& final(state).phase == if final(state).p1_commit is Some && final(state).p2_commit is Some {
                    Phase::Reveal
                } else {
                    Phase::Commit
                }
            },
    {
        if state.phase != Phase::Commit {
            return Err(Error::NotInPhase);
        }
        if bytes_equal(player, &state.player1) {
            if state.p1_commit.is_some() {
                return Err(Error::InvalidCommitment);
            }
            state.p1_commit = Some(hash);
        } else if bytes_equal(player, &state.player2) {
            if state.p2_commit.is_some() {
                return Err(Error::InvalidCommitment);
            }
            state.p2_commit = Some(hash);
        } else {
            return Err(Error::NotPlayer);
        }
        if state.p1_commit.is_some() && state.p2_commit.is_some() {
            state.phase = Phase::Reveal;
        }
        Ok(())
    }
    /// Checks a preimage, whose digest is given, against the caller's stored
    /// commitment; on a match marks the caller revealed and appends the
    /// preimage to the shared entropy. Each player reveals once.
    pub fn reveal_with_digest(
        state: &mut GameState,
        player: &PlayerId,
        seed: &Vec<u8>,
        seed_digest: &Vec<u8>,
    ) -> (r: Result<(), Error>)
        requires
            old(state).wf(),
        ensures
            final(state).wf(),
            reveal_error(*old(state), player@, seed_digest@) is Some ==> {
                &&& r == Err::<(), Error>(reveal_error(*old(state), player@, seed_digest@)->Some_0)
                &&& *final(state) == *old(state)
            },
            reveal_error(*old(state), player@, seed_digest@) is None ==> {
                &&& r is Ok
                &&& final(state).shared_seed@ == old(state).shared_seed@ + seed@
                &&& player@ == old(state).player1@ ==> *final(state) == (GameState {
                    p1_revealed: true,
                    shared_seed: final(state).shared_seed,
                    ..*old(state)
                })
                &&& player@ != old(state).player1@ ==> *final(state) == (GameState {
                    p2_revealed: true,
                    shared_seed: final(state).shared_seed,
                    ..*old(state)
                })
            },
    {
        if state.phase != Phase::Reveal {
            return Err(Error::NotInPhase);
        }
        if bytes_equal(player, &state.player1) {
            let ok = match &state.p1_commit {
                Some(c) => !state.p1_revealed && bytes_equal(c, seed_digest),
                None => false,
            };
            if !ok {
                return Err(Error::InvalidCommitment);
            }
            state.p1_revealed = true;
        } else if bytes_equal(player, &state.player2) {
            let ok = match &state.p2_commit {
                Some(c) => !state.p2_revealed && bytes_equal(c, seed_digest),
                None => false,
            };
            if !ok {
                return Err(Error::InvalidCommitment);
            }
            state.p2_revealed = true;
        } else {
            return Err(Error::NotPlayer);
        }
        let mut i: usize = 0;
        let ghost before = state.shared_seed@;
        let ghost mid = *state;
        while i < seed.len()
            invariant
                0 <= i <= seed@.len(),
                *state == (GameState { shared_seed: state.shared_seed, ..mid }),
                state.shared_seed@ == before + seed@.subrange(0, i as int),
            decreases seed@.len() - i,
        {
            state.shared_seed.push(seed[i]);
            i = i + 1;
        }
        assert(seed@.subrange(0, seed@.len() as int) =~= seed@);
        Ok(())
    }

    /// Once both players have revealed, hands the first turn to the player that
    /// the digest of the shared entropy selects and starts play.
    pub fn begin_play(state: &mut GameState, final_digest: &Vec<u8>)
        requires
            old(state).wf(),
            old(state).phase == Phase::Reveal,
        ensures
            final(state).wf(),
            *final(state) == (GameState {
                active_player: final(state).active_player,
                phase: Phase::Playing,
                ..*old(state)
            }),
            final(state).active_player@ == if player1_starts(final_digest@) {
                old(state).player1@
            } else {
                old(state).player2@
            },
    {
        let last: u8 = if final_digest.len() <= 31 {
            0
        } else {
            final_digest[31]
        };
        if last % 2 == 0 {
            state.active_player = copy_bytes(&state.player1);
        } else {
            state.active_player = copy_bytes(&state.player2);
        }
        state.phase = Phase::Playing;
    }

    /// Reveals a player's secret: it must hash (SHA-256) to the stored
    /// commitment. When the second secret lands, the digest of the shared
    /// entropy picks the first player and play starts.
    pub fn reveal_seed(env: &Env, state: &mut GameState, player: &PlayerId, seed: &Vec<u8>) -> (r: Result<(), Error>)
        requires
            old(state).wf(),
            old(state).shared_seed@.len() + seed@.len() <= u32::MAX,
        ensures
            final(state).wf(),
            reveal_error(*old(state), player@, sha256_of(seed@)) is Some ==> {
                &&& r == Err::<(), Error>(reveal_error(*old(state), player@, sha256_of(seed@))->Some_0)
                &&& *final(state) == *old(state)
            },
            reveal_error(*old(state), player@, sha256_of(seed@)) is None ==> {
                let both = final(state).p1_revealed && final(state).p2_revealed;
                &&& r is Ok
                &&& final(state).shared_seed@ == old(state).shared_seed@ + seed@
                &&& final(state).p1_revealed == (old(state).p1_revealed || player@ == old(state).player1@)
                &&& final(state).p2_revealed == (old(state).p2_revealed || player@ != old(state).player1@)
                &&& *final(state) == (GameState {
                    p1_revealed: final(state).p1_revealed,
                    p2_revealed: final(state).p2_revealed,
                    shared_seed: final(state).shared_seed,
                    active_player: final(state).active_player,
                    phase: final(state).phase,
                    ..*old(state)
                })
                &&& final(state).phase == if both { Phase::Playing } else { Phase::Reveal }
                &&& !both ==> final(state).active_player == old(state).active_player
                &&& both ==> final(state).active_player@ == if player1_starts(sha256_of(final(state).shared_seed@)) {
                    old(state).player1@
                } else {
                    old(state).player2@
                }
            },
    {
        let digest = sha256(env, seed);
        Self::reveal_with_digest(state, player, seed, &digest)?;
        if state.p1_revealed && state.p2_revealed {
            let final_digest = sha256(env, &state.shared_seed);
            Self::begin_play(state, &final_digest);
        }
        Ok(())
    }

    /// Hands the turn to the other player and counts the turn.
    pub fn switch_player(state: &mut GameState)
        requires
            old(state).wf(),
            old(state).turn_number < u32::MAX,
        ensures
            final(state).wf(),
            *final(state) == (GameState {
                active_player: final(state).active_player,
                turn_number: (old(state).turn_number + 1) as u32,
                ..*old(state)
            }),
            final(state).active_player@ == if old(state).active_is_p1() {
                old(state).player2@
            } else {
                old(state).player1@
            },
    {
        if bytes_equal(&state.active_player, &state.player1) {
            state.active_player = copy_bytes(&state.player2);
        } else {
            state.active_player = copy_bytes(&state.player1);
        }
        state.turn_number = state.turn_number + 1;
    }

    /// Ends the game and says whether player 1 won.
    pub fn finalize_game(state: &mut GameState) -> (player1_won: bool)
        requires
            old(state).wf_core(),
        ensures
            final(state).wf(),
            *final(state) == (GameState { phase: Phase::Finished, ..*old(state) }),
            player1_won == player1_wins(old(state).p1_score, old(state).p2_score, old(state).p1_busts, old(state).p2_busts),
    {
        state.phase = Phase::Finished;
        if state.p1_score >= WIN_SCORE {
            true
        } else if state.p2_score >= WIN_SCORE {
            false
        } else if state.p2_busts >= MAX_BUSTS {
            true
        } else if state.p1_busts >= MAX_BUSTS {
            false
        } else {
            state.p1_score > state.p2_score
        }
    }
    /// Draws a card for the player who holds the turn. A safe draw adds the
    /// card's value to the turn score; a bust clears the turn, counts a bust
    /// and passes the turn, and the bust that reaches the limit ends the game
    /// in favour of the opponent. On a finished game it changes nothing and
    /// returns the decided winner.
    pub fn draw_card(
        state: &mut GameState,
        card_id: u32,
        proof: &Vec<u8>,
        is_bust: bool,
        new_suits_mask: u32,
    ) -> (r: Result<TurnOutcome, Error>)
        requires
            old(state).wf(),
            old(state).turn_number < u32::MAX,
        ensures
            final(state).wf(),
            old(state).phase == Phase::Finished ==> {
                &&& r == Ok::<TurnOutcome, Error>(TurnOutcome::GameOver {
                    player1_won: player1_wins(old(state).p1_score, old(state).p2_score, old(state).p1_busts, old(state).p2_busts),
                })
                &&& *final(state) == *old(state)
            },
            old(state).phase != Phase::Finished && draw_error(*old(state), card_id, proof@.len()) is Some ==> {
                &&& r == Err::<TurnOutcome, Error>(draw_error(*old(state), card_id, proof@.len())->Some_0)
                &&& *final(state) == *old(state)
            },
            draw_error(*old(state), card_id, proof@.len()) is None ==> {
                let a = old(state).active_is_p1();
                &&& r is Ok
                &&& final(state).p1_cards_drawn == if a { old(state).p1_cards_drawn + 1 } else { old(state).p1_cards_drawn as int }
                &&& final(state).p2_cards_drawn == if a { old(state).p2_cards_drawn as int } else { old(state).p2_cards_drawn + 1 }
                &&& !is_bust ==> {
                    &&& r == Ok::<TurnOutcome, Error>(TurnOutcome::Continue)
                    &&& final(state).turn_cards@ == old(state).turn_cards@.push(card_id)
                    &&& final(state).turn_score == old(state).turn_score + card_id % RANKS_PER_SUIT + 1
                    &&& *final(state) == (GameState {
                        p1_cards_drawn: final(state).p1_cards_drawn,
                        p2_cards_drawn: final(state).p2_cards_drawn,
                        turn_cards: final(state).turn_cards,
                        turn_suits_mask: new_suits_mask,
                        turn_score: final(state).turn_score,
                        ..*old(state)
                    })
                }
                &&& is_bust ==> {
                    &&& final(state).turn_cards@.len() == 0
                    &&& final(state).p1_busts == if a { old(state).p1_busts + 1 } else { old(state).p1_busts as int }
                    &&& final(state).p2_busts == if a { old(state).p2_busts as int } else { old(state).p2_busts + 1 }
                    &&& *final(state) == (GameState {
                        p1_cards_drawn: final(state).p1_cards_drawn,
                        p2_cards_drawn: final(state).p2_cards_drawn,
                        p1_busts: final(state).p1_busts,
                        p2_busts: final(state).p2_busts,
                        turn_cards: final(state).turn_cards,
                        turn_suits_mask: 0,
                        turn_score: 0,
                        active_player: final(state).active_player,
                        turn_number: final(state).turn_number,
                        phase: final(state).phase,
                        ..*old(state)
                    })
                    &&& old(state).bust_ends_game() ==> {
                        &&& r == Ok::<TurnOutcome, Error>(TurnOutcome::GameOver {
                            player1_won: old(state).player1_wins_after_bust(),
                        })
                        &&& final(state).phase == Phase::Finished
                        &&& final(state).active_player == old(state).active_player
                        &&& final(state).turn_number == old(state).turn_number
                    }
                    &&& !old(state).bust_ends_game() ==> {
                        &&& r == Ok::<TurnOutcome, Error>(TurnOutcome::Continue)
                        &&& final(state).phase == old(state).phase
                        &&& final(state).active_player@ == if a { old(state).player2@ } else { old(state).player1@ }
                        &&& final(state).turn_number == old(state).turn_number + 1
                    }
                }
            },
    {
        if state.phase == Phase::Finished {
            let player1_won = Self::finalize_game(state);
            return Ok(TurnOutcome::GameOver { player1_won });
        }
        if state.phase != Phase::Playing {
            return Err(Error::NotInPhase);
        }
        if proof.len() == 0 {
            return Err(Error::InvalidProof);
        }
        let card = match Card::from_id(card_id) {
            Ok(c) => c,
            Err(_) => {
                return Err(Error::InvalidCard);
            },
        };
        let is_p1 = bytes_equal(&state.active_player, &state.player1);
        if is_p1 {
            if state.p1_cards_drawn >= DECK_SIZE {
                return Err(Error::InvalidMove);
            }
            state.p1_cards_drawn = state.p1_cards_drawn + 1;
        } else {
            if state.p2_cards_drawn >= DECK_SIZE {
                return Err(Error::InvalidMove);
            }
            state.p2_cards_drawn = state.p2_cards_drawn + 1;
        }
        if is_bust {
            state.turn_cards = Vec::new();
            state.turn_suits_mask = 0;
            state.turn_score = 0;
            if is_p1 {
                state.p1_busts = state.p1_busts + 1;
            } else {
                state.p2_busts = state.p2_busts + 1;
            }
            let busts = if is_p1 {
                state.p1_busts
            } else {
                state.p2_busts
            };
            if busts >= MAX_BUSTS {
                let player1_won = Self::finalize_game(state);
                return Ok(TurnOutcome::GameOver { player1_won });
            }
            Self::switch_player(state);
        } else {
            state.turn_cards.push(card_id);
            state.turn_suits_mask = new_suits_mask;
            state.turn_score = state.turn_score + card.value();
        }
        Ok(TurnOutcome::Continue)
    }

    /// Banks the turn score into the score of the player who holds the turn.
    /// A score at the threshold ends the game at once; otherwise the turn
    /// passes. On a finished game it changes nothing and returns the decided
    /// winner.
    pub fn bank_cards(state: &mut GameState) -> (r: Result<TurnOutcome, Error>)
        requires
            old(state).wf(),
            old(state).turn_number < u32::MAX,
        ensures
            final(state).wf(),
            old(state).phase == Phase::Finished ==> {
                &&& r == Ok::<TurnOutcome, Error>(TurnOutcome::GameOver {
                    player1_won: player1_wins(old(state).p1_score, old(state).p2_score, old(state).p1_busts, old(state).p2_busts),
                })
                &&& *final(state) == *old(state)
            },
            old(state).phase != Phase::Playing && old(state).phase != Phase::Finished ==> {
                &&& r == Err::<TurnOutcome, Error>(Error::NotInPhase)
                &&& *final(state) == *old(state)
            },
            old(state).phase == Phase::Playing ==> {
                let a = old(state).active_is_p1();
                let p1 = if a { old(state).p1_score + old(state).turn_score } else { old(state).p1_score as int };
                let p2 = if a { old(state).p2_score as int } else { old(state).p2_score + old(state).turn_score };
                let won = p1 >= WIN_SCORE || p2 >= WIN_SCORE;
                &&& final(state).p1_score == p1
                &&& final(state).p2_score == p2
                &&& final(state).turn_cards@.len() == 0
                &&& *final(state) == (GameState {
                    p1_score: final(state).p1_score,
                    p2_score: final(state).p2_score,
                    turn_cards: final(state).turn_cards,
                    turn_suits_mask: 0,
                    turn_score: 0,
                    active_player: final(state).active_player,
                    turn_number: final(state).turn_number,
                    phase: final(state).phase,
                    ..*old(state)
                })
                &&& won ==> {
                    &&& r == Ok::<TurnOutcome, Error>(TurnOutcome::GameOver {
                        player1_won: player1_wins(p1 as u32, p2 as u32, old(state).p1_busts, old(state).p2_busts),
                    })
                    &&& final(state).phase == Phase::Finished
                    &&& final(state).active_player == old(state).active_player
                    &&& final(state).turn_number == old(state).turn_number
                }
                &&& !won ==> {
                    &&& r == Ok::<TurnOutcome, Error>(TurnOutcome::Continue)
                    &&& final(state).phase == Phase::Playing
                    &&& final(state).active_player@ == if a { old(state).player2@ } else { old(state).player1@ }
                    &&& final(state).turn_number == old(state).turn_number + 1
                }
            },
    {
        if state.phase == Phase::Finished {
            let player1_won = Self::finalize_game(state);
            return Ok(TurnOutcome::GameOver { player1_won });
        }
        if state.phase != Phase::Playing {
            return Err(Error::NotInPhase);
        }
        if bytes_equal(&state.active_player, &state.player1) {
            state.p1_score = state.p1_score + state.turn_score;
        } else {
            state.p2_score = state.p2_score + state.turn_score;
        }
        state.turn_cards = Vec::new();
        state.turn_suits_mask = 0;
        state.turn_score = 0;
        if state.p1_score >= WIN_SCORE || state.p2_score >= WIN_SCORE {
            let player1_won = Self::finalize_game(state);
            return Ok(TurnOutcome::GameOver { player1_won });
        }
        Self::switch_player(state);
        Ok(TurnOutcome::Continue)
    }
}

/// A reveal by a player who committed and has not yet revealed succeeds
/// exactly when the preimage hashes to the stored commitment; any other
/// preimage is refused with `InvalidCommitment`.
pub proof fn lemma_reveal_iff_digest_matches(s: GameState, player: Seq<u8>, m: Seq<u8>)
    requires
        s.wf(),
        s.phase == Phase::Reveal,
        player == s.player1@ ==> s.p1_commit is Some && !s.p1_revealed,
        player == s.player2@ ==> s.p2_commit is Some && !s.p2_revealed,
        player == s.player1@ || player == s.player2@,
    ensures
        player == s.player1@ ==> (reveal_error(s, player, sha256_of(m)) is None <==> sha256_of(m) == s.p1_commit->Some_0@),
        player == s.player2@ ==> (reveal_error(s, player, sha256_of(m)) is None <==> sha256_of(m) == s.p2_commit->Some_0@),
        reveal_error(s, player, sha256_of(m)) is Some ==> reveal_error(s, player, sha256_of(m)) == Some(Error::InvalidCommitment),
{
}

/// The player who starts is a function of the shared entropy alone: two
/// sessions of the same players whose entropy buffers hold the same bytes
/// start with the same player.
pub proof fn lemma_starting_player_deterministic(s1: GameState, s2: GameState)
    requires
        s1.player1@ == s2.player1@,
        s1.player2@ == s2.player2@,
        s1.shared_seed@ == s2.shared_seed@,
    ensures
        player1_starts(sha256_of(s1.shared_seed@)) == player1_starts(sha256_of(s2.shared_seed@)),
        (if player1_starts(sha256_of(s1.shared_seed@)) { s1.player1@ } else { s1.player2@ })
            == (if player1_starts(sha256_of(s2.shared_seed@)) { s2.player1@ } else { s2.player2@ }),
{
}

/// The completing reveal picks the starting player from the entropy alone:
/// two sessions of the same players whose buffers, with the revealed
/// preimage appended, hold the same bytes start with the same player.
pub proof fn lemma_completing_reveal_deterministic(s1: GameState, seed1: Seq<u8>, s2: GameState, seed2: Seq<u8>)
    requires
        s1.player1@ == s2.player1@,
        s1.player2@ == s2.player2@,
        s1.shared_seed@ + seed1 == s2.shared_seed@ + seed2,
    ensures
        (if player1_starts(sha256_of(s1.shared_seed@ + seed1)) { s1.player1@ } else { s1.player2@ })
            == (if player1_starts(sha256_of(s2.shared_seed@ + seed2)) { s2.player1@ } else { s2.player2@ }),
{
}

/// The bust that brings a player to the bust limit ends the game in favour of
/// the opponent, whatever the scores banked so far.
pub proof fn lemma_bust_threshold(s: GameState)
    requires
        s.wf(),
        s.phase == Phase::Playing,
        s.active_busts() + 1 == MAX_BUSTS,
    ensures
        s.bust_ends_game(),
        s.player1_wins_after_bust() == !s.active_is_p1(),
{
}

} // verus!
