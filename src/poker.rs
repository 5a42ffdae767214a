use vstd::prelude::*;
use soroban_sdk::Env;
use crate::bn254::views;
use crate::bytes::{be_value, bytes_equal, bytes_to_u32, copy_bytes, prefix4, PlayerId};
use crate::groth16::{accepts, admissible, proof_accepted, Groth16Proof, VerificationKey};

verus! {

/// Number of public signals of a showdown proof: the two hole commitments,
/// the community commitment, the two hand rankings and the winner code.
pub const SHOWDOWN_SIGNALS: usize = 6;

/// Errors of the poker game.
#[derive(Clone, Copy, Debug, PartialEq, Eq, Structural)]
pub enum Error {
    GameNotFound,
    NotPlayer,
    AlreadyCommitted,
    NotCommitted,
    AlreadyRevealed,
    GameAlreadyEnded,
    InvalidProof,
    InvalidCommitment,
    NotInPhase,
    NotYourTurn,
}

/// Phases of a hand, in the order they are passed.
#[derive(Clone, Copy, Debug, PartialEq, Eq, Structural)]
pub enum Phase {
    Commit,
    Preflop,
    Flop,
    Turn,
    River,
    Showdown,
    Complete,
}

/// A betting action.
#[derive(Clone, Copy, Debug, PartialEq, Eq, Structural)]
pub enum Action {
    /// No action yet in this round.
    NoAction,
    Fold,
    Check,
    Call,
    Bet(i128),
    Raise(i128),
    AllIn,
}

/// How an action left the hand.
#[derive(Clone, Copy, Debug, PartialEq, Eq, Structural)]
pub enum HandOutcome {
    /// The hand goes on.
    Continue,
    /// A fold ended the hand; the settlement reports this winner.
    Folded { player1_won: bool },
    /// The hand was already decided; the settlement has been told already.
    Decided { player1_won: bool },
}

/// The record of one poker hand between two players.
#[derive(Clone, Debug)]
pub struct Game {
    pub player1: PlayerId,
    pub player2: PlayerId,
    pub player1_points: i128,
    pub player2_points: i128,
    pub player1_stack: i128,
    pub player2_stack: i128,
    pub player1_bet: i128,
    pub player2_bet: i128,
    pub pot: i128,
    pub player1_hole_commitment: Option<Vec<u8>>,
    pub player2_hole_commitment: Option<Vec<u8>>,
    pub community_cards: Vec<u32>,
    pub community_commitment: Option<Vec<u8>>,
    pub community_revealed: u32,
    /// `0` when player 1 is to act, `1` when player 2 is.
    pub current_actor: u32,
    pub last_action: Action,
    pub last_raise_amount: i128,
    pub actions_this_round: u32,
    pub player1_revealed: bool,
    pub player2_revealed: bool,
    pub player1_ranking: Option<u32>,
    pub player2_ranking: Option<u32>,
    pub winner: Option<PlayerId>,
    pub phase: Phase,
}

/// The phases in which the players bet.
pub open spec fn is_betting_phase(p: Phase) -> bool {
    p == Phase::Preflop || p == Phase::Flop || p == Phase::Turn || p == Phase::River
}

/// The phase after a completed betting round.
pub open spec fn next_phase(p: Phase) -> Phase {
    match p {
        Phase::Preflop => Phase::Flop,
        Phase::Flop => Phase::Turn,
        Phase::Turn => Phase::River,
        Phase::River => Phase::Showdown,
        _ => p,
    }
}

/// The larger of two amounts.
pub open spec fn max_amount(a: int, b: int) -> int {
    if a >= b { a } else { b }
}

/// The effect of a non-fold action by the player to act, given their stack
/// and bet, the opponent's bet, the pot and the last raise size: the new
/// stack, bet, pot and last raise size, or `None` if the action is illegal.
/// A check needs equal bets; a call needs a larger opposing bet that the
/// stack covers; a bet needs no bet yet this round and a stake within the
/// stack; a raise to `x` needs `x >= opp + max(last_raise, opp)` and
/// `x <= stack + bet`; all-in is always legal.
pub open spec fn betting_step(stack: int, bet: int, opp: int, pot: int, last_raise: int, a: Action) -> Option<(int, int, int, int)> {
    match a {
        Action::Check => if bet == opp { Some((stack, bet, pot, last_raise)) } else { None },
        Action::Call => if opp > bet && opp - bet <= stack {
            Some((stack - (opp - bet), opp, pot + (opp - bet), last_raise))
        } else {
            None
        },
        Action::Bet(x) => if opp == 0 && bet == 0 && 0 <= x <= stack {
            Some((stack - x, x as int, pot + x, x as int))
        } else {
            None
        },
        Action::Raise(x) => if x >= opp + max_amount(last_raise, opp) && x <= stack + bet {
            Some((stack - (x - bet), x as int, pot + (x - bet), x - opp))
        } else {
            None
        },
        Action::AllIn => Some((0, bet + stack, pot + stack, last_raise)),
        _ => None,
    }
}

/// Whether a betting round is over, checked in this order: a fold ends it;
/// fewer than two actions do not; unequal bets do not; an empty stack
/// (all-in) does; otherwise a call or an all-in does, and a check does only
/// with both bets at zero.
pub open spec fn round_complete(last: Action, actions: u32, bet1: i128, bet2: i128, stack1: i128, stack2: i128) -> bool {
    if last == Action::Fold {
        true
    } else if actions < 2 {
        false
    } else if bet1 != bet2 {
        false
    } else if stack1 == 0 || stack2 == 0 {
        true
    } else {
        match last {
            Action::Call | Action::AllIn => true,
            Action::Check => bet1 == 0 && bet2 == 0,
            _ => false,
        }
    }
}

/// Why a hole commitment is refused, if it is.
pub open spec fn hole_commit_error(g: Game, player: Seq<u8>) -> Option<Error> {
    if g.phase != Phase::Commit {
        Some(Error::NotInPhase)
    } else if player == g.player1@ {
        if g.player1_hole_commitment is Some { Some(Error::AlreadyCommitted) } else { None }
    } else if player == g.player2@ {
        if g.player2_hole_commitment is Some { Some(Error::AlreadyCommitted) } else { None }
    } else {
        Some(Error::NotPlayer)
    }
}

/// Whether an optional stored commitment is present and equal to a signal.
pub open spec fn matches_commitment(c: Option<Vec<u8>>, signal: Seq<u8>) -> bool {
    c is Some && c->Some_0@ == signal
}

/// Why a showdown is refused before its proof is checked, if it is.
pub open spec fn showdown_error(g: Game, signals: Seq<Seq<u8>>) -> Option<Error> {
    if g.phase != Phase::Showdown {
        Some(Error::NotInPhase)
    } else if g.player1_hole_commitment is None || g.player2_hole_commitment is None {
        Some(Error::NotCommitted)
    } else if signals.len() < SHOWDOWN_SIGNALS {
        Some(Error::InvalidProof)
    } else if !matches_commitment(g.player1_hole_commitment, signals[0])
        || !matches_commitment(g.player2_hole_commitment, signals[1])
        || !matches_commitment(g.community_commitment, signals[2]) {
        Some(Error::InvalidCommitment)
    } else {
        None
    }
}

/// The value of a signal read as a small big-endian integer.
pub open spec fn signal_u32(s: Seq<u8>) -> u32 {
    be_value(prefix4(s)) as u32
}

/// Whether a winner code names player 1: code `2` names player 2, any other
/// code (`1`, or `0` for a tie) player 1.
pub open spec fn code_names_player1(code: u32) -> bool {
    code != 2
}

impl Game {
    /// The invariant of a hand: distinct players, non-negative amounts, chips
    /// conserved between stacks and pot, and the current round's bets inside
    /// the pot.
    pub open spec fn wf(&self) -> bool {
        &&& self.player1@ != self.player2@
        &&& 0 <= self.player1_points
        &&& 0 <= self.player2_points
        &&& self.player1_points + self.player2_points <= i128::MAX
        &&& 0 <= self.player1_stack
        &&& 0 <= self.player2_stack
        &&& 0 <= self.player1_bet
        &&& 0 <= self.player2_bet
        &&& self.player1_stack + self.player2_stack + self.pot == self.player1_points + self.player2_points
        &&& self.player1_bet + self.player2_bet <= self.pot
        &&& 0 <= self.last_raise_amount <= self.player1_points + self.player2_points
        &&& self.current_actor <= 1
    }

    /// The seat of a player: `0` for player 1, `1` for player 2.
    pub open spec fn seat_of(&self, player: Seq<u8>) -> Option<u32> {
        if player == self.player1@ {
            Some(0u32)
        } else if player == self.player2@ {
            Some(1u32)
        } else {
            None
        }
    }

    /// Whether the hand is over with a recorded winner.
    pub open spec fn is_decided(&self) -> bool {
        self.phase == Phase::Complete && self.winner is Some
    }

    /// Whether the betting round of this record is over.
    pub open spec fn is_round_complete(&self) -> bool {
        round_complete(
            self.last_action,
            self.actions_this_round,
            self.player1_bet,
            self.player2_bet,
            self.player1_stack,
            self.player2_stack,
        )
    }

    /// The effect of a non-fold action by the player in `seat`.
    pub open spec fn step(&self, seat: u32, a: Action) -> Option<(int, int, int, int)> {
        if seat == 0 {
            betting_step(self.player1_stack as int, self.player1_bet as int, self.player2_bet as int, self.pot as int, self.last_raise_amount as int, a)
        } else {
            betting_step(self.player2_stack as int, self.player2_bet as int, self.player1_bet as int, self.pot as int, self.last_raise_amount as int, a)
        }
    }

    /// Why an action is refused, if it is.
    pub open spec fn action_error(&self, player: Seq<u8>, a: Action) -> Option<Error> {
        if !is_betting_phase(self.phase) {
            Some(Error::NotInPhase)
        } else if self.seat_of(player) is None {
            Some(Error::NotPlayer)
        } else if self.seat_of(player)->Some_0 != self.current_actor {
            Some(Error::NotYourTurn)
        } else if a != Action::Fold && self.step(self.current_actor, a) is None {
            Some(Error::NotInPhase)
        } else {
            None
        }
    }
}

/// The poker game: each operation checks and updates one hand record.
pub struct PockerContract;

impl PockerContract {
    /// Creates a hand in the commit phase: each player's buy-in becomes their
    /// stack, nothing is bet, player 1 acts first. A player cannot play
    /// against themself (`NotPlayer`).
    pub fn start_game(
        player1: PlayerId,
        player2: PlayerId,
        player1_points: i128,
        player2_points: i128,
    ) -> (r: Result<Game, Error>)
        requires
            0 <= player1_points,
            0 <= player2_points,
            player1_points + player2_points <= i128::MAX,
        ensures
            player1@ == player2@ <==> r == Err::<Game, Error>(Error::NotPlayer),
            player1@ != player2@ ==> r is Ok,
            r is Ok ==> {
                let g = r->Ok_0;
                &&& g.wf()
                &&& g.player1 == player1
                &&& g.player2 == player2
                &&& g.player1_points == player1_points
                &&& g.player2_points == player2_points
                &&& g.player1_stack == player1_points
                &&& g.player2_stack == player2_points
                &&& g.player1_bet == 0 && g.player2_bet == 0 && g.pot == 0
                &&& g.player1_hole_commitment is None
                &&& g.player2_hole_commitment is None
                &&& g.community_cards@.len() == 0
                &&& g.community_commitment is Some
                &&& g.community_commitment->Some_0@ == Seq::new(32, |i: int| 0u8)
                &&& g.community_revealed == 0
                &&& g.current_actor == 0
                &&& g.last_action == Action::NoAction
                &&& g.last_raise_amount == 0
                &&& g.actions_this_round == 0
                &&& !g.player1_revealed && !g.player2_revealed
                &&& g.player1_ranking is None && g.player2_ranking is None
                &&& g.winner is None
                &&& g.phase == Phase::Commit
            },
    {
        if bytes_equal(&player1, &player2) {
            return Err(Error::NotPlayer);
        }
        let placeholder: Vec<u8> = vec![0u8; 32];
        Ok(Game {
            player1,
            player2,
            player1_points,
            player2_points,
            player1_stack: player1_points,
            player2_stack: player2_points,
            player1_bet: 0,
            player2_bet: 0,
            pot: 0,
            player1_hole_commitment: None,
            player2_hole_commitment: None,
            community_cards: Vec::new(),
            community_commitment: Some(placeholder),
            community_revealed: 0,
            current_actor: 0,
            last_action: Action::NoAction,
            last_raise_amount: 0,
            actions_this_round: 0,
            player1_revealed: false,
            player2_revealed: false,
            player1_ranking: None,
            player2_ranking: None,
            winner: None,
            phase: Phase::Commit,
        })
    }

    /// Stores a player's commitment to their hole cards; each player commits
    /// once, and once both have, betting starts (preflop).
    pub fn submit_hole_commitment(game: &mut Game, player: &PlayerId, hole_commitment: Vec<u8>) -> (r: Result<(), Error>)
        requires
            old(game).wf(),
        ensures
            final(game).wf(),
            hole_commit_error(*old(game), player@) is Some ==> {
                &&& r == Err::<(), Error>(hole_commit_error(*old(game), player@)->Some_0)
                &&& *final(game) == *old(game)
            },
            hole_commit_error(*old(game), player@) is None ==> {
                &&& r is Ok
                &&& player@ == old(game).player1@ ==> *final(game) == (Game {
                    player1_hole_commitment: Some(hole_commitment),
                    phase: final(game).phase,
                    ..*old(game)
                })
                &&& player@ != old(game).player1@ ==> *final(game) == (Game {
                    player2_hole_commitment: Some(hole_commitment),
                    phase: final(game).phase,
                    ..*old(game)
                })
                &&& final(game).phase == if final(game).player1_hole_commitment is Some
                    && final(game).player2_hole_commitment is Some {
                    Phase::Preflop
                } else {
                    Phase::Commit
                }
            },
    {
        if game.phase != Phase::Commit {
            return Err(Error::NotInPhase);
        }
        if bytes_equal(player, &game.player1) {
            if game.player1_hole_commitment.is_some() {
                return Err(Error::AlreadyCommitted);
            }
            game.player1_hole_commitment = Some(hole_commitment);
        } else if bytes_equal(player, &game.player2) {
            if game.player2_hole_commitment.is_some() {
                return Err(Error::AlreadyCommitted);
            }
            game.player2_hole_commitment = Some(hole_commitment);
        } else {
            return Err(Error::NotPlayer);
        }
        if game.player1_hole_commitment.is_some() && game.player2_hole_commitment.is_some() {
            game.phase = Phase::Preflop;
        }
        Ok(())
    }

    /// Stores the commitment to the community cards; refused while the hole
    /// cards are still being committed.
    pub fn submit_community_commitment(game: &mut Game, community_commitment: Vec<u8>) -> (r: Result<(), Error>)
        requires
            old(game).wf(),
        ensures
            final(game).wf(),
            old(game).phase == Phase::Commit ==> {
                &&& r == Err::<(), Error>(Error::NotInPhase)
                &&& *final(game) == *old(game)
            },
            old(game).phase != Phase::Commit ==> {
                &&& r is Ok
                &&& *final(game) == (Game { community_commitment: Some(community_commitment), ..*old(game) })
            },
    {
        if game.phase == Phase::Commit {
            return Err(Error::NotInPhase);
        }
        game.community_commitment = Some(community_commitment);
        Ok(())
    }

    /// Whether the betting round is over (see `round_complete`).
    pub fn is_betting_round_complete(game: &Game) -> (r: bool)
        ensures
            r == game.is_round_complete(),
    {
        if game.last_action == Action::Fold {
            return true;
        }
        if game.actions_this_round < 2 {
            return false;
        }
        if game.player1_bet != game.player2_bet {
            return false;
        }
        if game.player1_stack == 0 || game.player2_stack == 0 {
            return true;
        }
        match game.last_action {
            Action::Call | Action::AllIn => true,
            Action::Check => game.player1_bet == 0 && game.player2_bet == 0,
            _ => false,
        }
    }
    /// Plays a betting action for the player to act; on a decided hand it
    /// changes nothing and returns the recorded winner. A fold ends the hand at
    /// once in favour of the opponent. Any other action must be legal (see
    /// `betting_step`); it moves chips from the stack to the bet and the pot,
    /// then either closes the round (see `round_complete`): next phase, bets
    /// back to zero, player 1 to act, no action yet; or passes the turn.
    #[verifier::rlimit(50)]
    #[verifier::spinoff_prover]
    pub fn player_action(game: &mut Game, player: &PlayerId, action: Action) -> (r: Result<HandOutcome, Error>)
        requires
            old(game).wf(),
            old(game).actions_this_round < u32::MAX,
        ensures
            final(game).wf(),
            old(game).is_decided() ==> {
                &&& r == Ok::<HandOutcome, Error>(HandOutcome::Decided {
                    player1_won: old(game).winner->Some_0@ == old(game).player1@,
                })
                &&& *final(game) == *old(game)
            },
            !old(game).is_decided() && old(game).action_error(player@, action) is Some ==> {
                &&& r == Err::<HandOutcome, Error>(old(game).action_error(player@, action)->Some_0)
                &&& *final(game) == *old(game)
            },
            !old(game).is_decided() && old(game).action_error(player@, action) is None && action == Action::Fold ==> {
                let p1_won = old(game).current_actor == 1;
                &&& r == Ok::<HandOutcome, Error>(HandOutcome::Folded { player1_won: p1_won })
                &&& final(game).winner is Some
                &&& final(game).winner->Some_0@ == if p1_won { old(game).player1@ } else { old(game).player2@ }
                &&& *final(game) == (Game { winner: final(game).winner, phase: Phase::Complete, ..*old(game) })
            },
            !old(game).is_decided() && old(game).action_error(player@, action) is None && action != Action::Fold ==> {
                let seat = old(game).current_actor;
                let st = old(game).step(seat, action)->Some_0;
                let s1 = if seat == 0 { st.0 } else { old(game).player1_stack as int };
                let s2 = if seat == 0 { old(game).player2_stack as int } else { st.0 };
                let b1 = if seat == 0 { st.1 } else { old(game).player1_bet as int };
                let b2 = if seat == 0 { old(game).player2_bet as int } else { st.1 };
                let n = (old(game).actions_this_round + 1) as u32;
                let done = round_complete(action, n, b1 as i128, b2 as i128, s1 as i128, s2 as i128);
                &&& r == Ok::<HandOutcome, Error>(HandOutcome::Continue)
                &&& final(game).player1_stack == s1
                &&& final(game).player2_stack == s2
                &&& final(game).pot == st.2
                &&& final(game).last_raise_amount == st.3
                &&& done ==> {
                    &&& final(game).phase == next_phase(old(game).phase)
                    &&& final(game).player1_bet == 0
                    &&& final(game).player2_bet == 0
                    &&& final(game).current_actor == 0
                    &&& final(game).last_action == Action::NoAction
                    &&& final(game).actions_this_round == 0
                }
                &&& !done ==> {
                    &&& final(game).phase == old(game).phase
                    &&& final(game).player1_bet == b1
                    &&& final(game).player2_bet == b2
                    &&& final(game).current_actor == 1 - seat
                    &&& final(game).last_action == action
                    &&& final(game).actions_this_round == n
                }
                &&& *final(game) == (Game {
                    player1_stack: final(game).player1_stack,
                    player2_stack: final(game).player2_stack,
                    player1_bet: final(game).player1_bet,
                    player2_bet: final(game).player2_bet,
                    pot: final(game).pot,
                    last_raise_amount: final(game).last_raise_amount,
                    last_action: final(game).last_action,
                    actions_this_round: final(game).actions_this_round,
                    current_actor: final(game).current_actor,
                    phase: final(game).phase,
                    ..*old(game)
                })
            },
    {
        if game.phase == Phase::Complete {
            if let Some(w) = &game.winner {
                return Ok(HandOutcome::Decided { player1_won: bytes_equal(w, &game.player1) });
            }
        }
        if game.phase != Phase::Preflop && game.phase != Phase::Flop && game.phase != Phase::Turn
            && game.phase != Phase::River {
            return Err(Error::NotInPhase);
        }
        let is_p1 = bytes_equal(player, &game.player1);
        let is_p2 = bytes_equal(player, &game.player2);
        if !is_p1 && !is_p2 {
            return Err(Error::NotPlayer);
        }
        let seat: u32 = if is_p1 {
            0
        } else {
            1
        };
        if seat != game.current_actor {
            return Err(Error::NotYourTurn);
        }
        let (stack, bet, opp) = if is_p1 {
            (game.player1_stack, game.player1_bet, game.player2_bet)
        } else {
            (game.player2_stack, game.player2_bet, game.player1_bet)
        };
        let pot = game.pot;
        let last_raise = game.last_raise_amount;
        let (new_stack, new_bet, new_pot, new_raise): (i128, i128, i128, i128) = match action {
            Action::Fold => {
                let winner = if is_p1 {
                    copy_bytes(&game.player2)
                } else {
                    copy_bytes(&game.player1)
                };
                game.winner = Some(winner);
                game.phase = Phase::Complete;
                return Ok(HandOutcome::Folded { player1_won: !is_p1 });
            },
            Action::Check => {
                if bet != opp {
                    return Err(Error::NotInPhase);
                }
                (stack, bet, pot, last_raise)
            },
            Action::Call => {
                if opp <= bet {
                    return Err(Error::NotInPhase);
                }
                let call_amount = opp - bet;
                if call_amount > stack {
                    return Err(Error::NotInPhase);
                }
                (stack - call_amount, opp, pot + call_amount, last_raise)
            },
            Action::Bet(amount) => {
                if opp != 0 || bet != 0 || amount < 0 || amount > stack {
                    return Err(Error::NotInPhase);
                }
                (stack - amount, amount, pot + amount, amount)
            },
            Action::Raise(amount) => {
                if amount > stack + bet || amount < opp {
                    return Err(Error::NotInPhase);
                }
                let min_increase = if last_raise >= opp {
                    last_raise
                } else {
                    opp
                };
                if amount - opp < min_increase {
                    return Err(Error::NotInPhase);
                }
                let raise_amount = amount - bet;
                (stack - raise_amount, amount, pot + raise_amount, amount - opp)
            },
            Action::AllIn => (0, bet + stack, pot + stack, last_raise),
            Action::NoAction => {
                return Err(Error::NotInPhase);
            },
        };
        if is_p1 {
            game.player1_stack = new_stack;
            game.player1_bet = new_bet;
        } else {
            game.player2_stack = new_stack;
            game.player2_bet = new_bet;
        }
        game.pot = new_pot;
        game.last_raise_amount = new_raise;
        game.last_action = action;
        game.actions_this_round = game.actions_this_round + 1;
        if Self::is_betting_round_complete(game) {
            game.phase = match game.phase {
                Phase::Preflop => Phase::Flop,
                Phase::Flop => Phase::Turn,
                Phase::Turn => Phase::River,
                Phase::River => Phase::Showdown,
                other => other,
            };
            game.player1_bet = 0;
            game.player2_bet = 0;
            game.current_actor = 0;
            game.last_action = Action::NoAction;
            game.actions_this_round = 0;
        } else {
            game.current_actor = 1 - game.current_actor;
        }
        Ok(HandOutcome::Continue)
    }
    /// Checks the showdown's preconditions: the showdown phase, both hole
    /// commitments, six public signals, and the first three signals equal to
    /// the stored hole and community commitments.
    pub fn check_showdown(game: &Game, public_signals: &Vec<Vec<u8>>) -> (r: Result<(), Error>)
        ensures
            showdown_error(*game, views(public_signals@)) is Some
                ==> r == Err::<(), Error>(showdown_error(*game, views(public_signals@))->Some_0),
            showdown_error(*game, views(public_signals@)) is None ==> r is Ok,
    {
        if game.phase != Phase::Showdown {
            return Err(Error::NotInPhase);
        }
        if game.player1_hole_commitment.is_none() || game.player2_hole_commitment.is_none() {
            return Err(Error::NotCommitted);
        }
        if public_signals.len() < SHOWDOWN_SIGNALS {
            return Err(Error::InvalidProof);
        }
        proof {
            assert(views(public_signals@)[0] == public_signals@[0]@);
            assert(views(public_signals@)[1] == public_signals@[1]@);
            assert(views(public_signals@)[2] == public_signals@[2]@);
        }
        let ok1 = match &game.player1_hole_commitment {
            Some(c) => bytes_equal(&public_signals[0], c),
            None => false,
        };
        let ok2 = match &game.player2_hole_commitment {
            Some(c) => bytes_equal(&public_signals[1], c),
            None => false,
        };
        let ok3 = match &game.community_commitment {
            Some(c) => bytes_equal(&public_signals[2], c),
            None => false,
        };
        if !ok1 || !ok2 || !ok3 {
            return Err(Error::InvalidCommitment);
        }
        Ok(())
    }

    /// Records a verified showdown: the rankings (signals 3 and 4), both
    /// hands revealed, and the winner named by signal 5 (`2` for player 2,
    /// anything else for player 1, ties included); the hand is complete.
    pub fn apply_showdown(game: &mut Game, public_signals: &Vec<Vec<u8>>) -> (r: PlayerId)
        requires
            old(game).wf(),
            public_signals@.len() >= SHOWDOWN_SIGNALS,
        ensures
            final(game).wf(),
            r@ == if code_names_player1(signal_u32(public_signals@[5]@)) { old(game).player1@ } else { old(game).player2@ },
            final(game).winner is Some,
            final(game).winner->Some_0@ == r@,
            *final(game) == (Game {
                player1_ranking: Some(signal_u32(public_signals@[3]@)),
                player2_ranking: Some(signal_u32(public_signals@[4]@)),
                player1_revealed: true,
                player2_revealed: true,
                winner: final(game).winner,
                phase: Phase::Complete,
                ..*old(game)
            }),
    {
        let p1_ranking = bytes_to_u32(&public_signals[3]);
        let p2_ranking = bytes_to_u32(&public_signals[4]);
        let winner_signal = bytes_to_u32(&public_signals[5]);
        game.player1_ranking = Some(p1_ranking);
        game.player2_ranking = Some(p2_ranking);
        game.player1_revealed = true;
        game.player2_revealed = true;
        let winner = if winner_signal == 2 {
            copy_bytes(&game.player2)
        } else {
            copy_bytes(&game.player1)
        };
        game.winner = Some(copy_bytes(&winner));
        game.phase = Phase::Complete;
        winner
    }

    /// Settles the showdown with a Groth16 proof over the public signals
    /// (hole commitments, community commitment, rankings, winner code). Once
    /// a winner is recorded, returns it again and changes nothing. The
    /// signals' commitments must match the stored ones (`InvalidCommitment`)
    /// before the proof is checked; a missing key or a proof that does not
    /// verify is `InvalidProof`.
    pub fn reveal_winner(
        env: &Env,
        game: &mut Game,
        proof: &Groth16Proof,
        public_signals: &Vec<Vec<u8>>,
        vk: &Option<VerificationKey>,
    ) -> (r: Result<PlayerId, Error>)
        requires
            old(game).winner is None && showdown_error(*old(game), views(public_signals@)) is None ==> admissible(*vk, *proof, views(public_signals@)),
            old(game).wf(),
        ensures
            final(game).wf(),
            old(game).winner is Some ==> {
                &&& r is Ok
                &&& r->Ok_0@ == old(game).winner->Some_0@
                &&& *final(game) == *old(game)
            },
            old(game).winner is None && showdown_error(*old(game), views(public_signals@)) is Some ==> {
                &&& r == Err::<PlayerId, Error>(showdown_error(*old(game), views(public_signals@))->Some_0)
                &&& *final(game) == *old(game)
            },
            old(game).winner is None && showdown_error(*old(game), views(public_signals@)) is None ==> {
                let accepted = proof_accepted(*vk, *proof, views(public_signals@));
                &&& !accepted ==> r == Err::<PlayerId, Error>(Error::InvalidProof) && *final(game) == *old(game)
                &&& accepted ==> {
                    let p1_won = code_names_player1(signal_u32(public_signals@[5]@));
                    &&& r is Ok
                    &&& r->Ok_0@ == if p1_won { old(game).player1@ } else { old(game).player2@ }
                    &&& final(game).winner is Some
                    &&& final(game).winner->Some_0@ == r->Ok_0@
                    &&& *final(game) == (Game {
                        player1_ranking: Some(signal_u32(public_signals@[3]@)),
                        player2_ranking: Some(signal_u32(public_signals@[4]@)),
                        player1_revealed: true,
                        player2_revealed: true,
                        winner: final(game).winner,
                        phase: Phase::Complete,
                        ..*old(game)
                    })
                }
            },
    {
        if let Some(w) = &game.winner {
            return Ok(copy_bytes(w));
        }
        Self::check_showdown(game, public_signals)?;
        Self::verify_groth16_proof(env, proof, public_signals, vk)?;
        Ok(Self::apply_showdown(game, public_signals))
    }
    /// Checks a Groth16 proof against the stored key; a missing key or a
    /// proof that does not verify is `InvalidProof`.
    pub fn verify_groth16_proof(
        env: &Env,
        proof: &Groth16Proof,
        public_signals: &Vec<Vec<u8>>,
        vk: &Option<VerificationKey>,
    ) -> (r: Result<(), Error>)
        requires
            admissible(*vk, *proof, views(public_signals@)),
        ensures
            proof_accepted(*vk, *proof, views(public_signals@)) <==> r is Ok,
            r is Err ==> r == Err::<(), Error>(Error::InvalidProof),
    {
        if accepts(env, vk, proof, public_signals) {
            Ok(())
        } else {
            Err(Error::InvalidProof)
        }
    }
}

} // verus!
