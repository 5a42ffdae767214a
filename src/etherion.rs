use vstd::prelude::*;
use crate::bytes::{bytes_equal, copy_bytes, PlayerId};

verus! {

/// Life points each player starts with.
pub const START_LP: u32 = 8000;

/// Phases of an Etherion turn.
#[derive(Clone, Copy, Debug, PartialEq, Eq, Structural)]
pub enum Phase {
    Standby,
    Draw,
    Main,
    Battle,
    End,
}

/// The record of one Etherion duel.
#[derive(Clone, Debug)]
pub struct GameState {
    pub player1: PlayerId,
    pub player2: PlayerId,
    pub p1_lp: u32,
    pub p2_lp: u32,
    pub turn_count: u32,
    pub active_player: PlayerId,
    pub phase: Phase,
}

impl GameState {
    /// The player to act is one of the two players.
    pub open spec fn wf(&self) -> bool {
        self.active_player@ == self.player1@ || self.active_player@ == self.player2@
    }
}

/// The Etherion duel: each operation updates the duel's record.
pub struct EtherionGame;

impl EtherionGame {
    /// A new duel: full life points, first turn, player 1 to act, standby.
    pub fn init(p1: PlayerId, p2: PlayerId) -> (r: GameState)
        ensures
            r.wf(),
            r.player1 == p1 && r.player2 == p2,
            r.p1_lp == START_LP && r.p2_lp == START_LP,
            r.turn_count == 1,
            r.active_player@ == p1@,
            r.phase == Phase::Standby,
    {
        let active_player = copy_bytes(&p1);
        GameState { player1: p1, player2: p2, p1_lp: START_LP, p2_lp: START_LP, turn_count: 1, active_player, phase: Phase::Standby }
    }

    /// The player to act draws in the standby phase, which moves the turn to
    /// its main phase.
    pub fn draw_card(state: &mut GameState, player: &PlayerId)
        requires
            old(state).wf(),
            player@ == old(state).active_player@,
            old(state).phase == Phase::Standby,
        ensures
            final(state).wf(),
            *final(state) == (GameState { phase: Phase::Main, ..*old(state) }),
    {
        state.phase = Phase::Main;
    }

    /// Ends the turn: the other player acts next, in the standby phase.
    pub fn end_turn(state: &mut GameState)
        requires
            old(state).wf(),
            old(state).turn_count < u32::MAX,
        ensures
            final(state).wf(),
            final(state).active_player@ == if old(state).active_player@ == old(state).player1@ {
                old(state).player2@
            } else {
                old(state).player1@
            },
            *final(state) == (GameState {
                active_player: final(state).active_player,
                turn_count: (old(state).turn_count + 1) as u32,
                phase: Phase::Standby,
                ..*old(state)
            }),
    {
        if bytes_equal(&state.active_player, &state.player1) {
            state.active_player = copy_bytes(&state.player2);
        } else {
            state.active_player = copy_bytes(&state.player1);
        }
        state.turn_count = state.turn_count + 1;
        state.phase = Phase::Standby;
    }
}

} // verus!
