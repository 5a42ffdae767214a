use vstd::prelude::*;
use soroban_sdk::Env;
use crate::bn254::views;
use crate::bytes::{be_value, prefix4, bytes_equal, bytes_to_i32, bytes_to_u32, copy_bytes, PlayerId};
use crate::groth16::{accepts, admissible, proof_accepted, Groth16Proof, VerificationKey};
use crate::poker::{code_names_player1, signal_u32};

verus! {

/// Health a player starts with, and the cap of a health pack.
pub const MAX_HEALTH: i32 = 100;

/// Ammunition a player starts with.
pub const START_AMMO: u32 = 50;

/// The best weapon.
pub const MAX_WEAPON: u32 = 3;

/// Number of public signals of a shot, damage or item proof.
pub const ACTION_SIGNALS: usize = 3;

/// Number of public signals of a win proof.
pub const WIN_SIGNALS: usize = 6;

/// Errors of the shooter game.
#[derive(Clone, Copy, Debug, PartialEq, Eq, Structural)]
pub enum Error {
    GameNotFound,
    NotPlayer,
    GameAlreadyEnded,
    InvalidProof,
    InvalidAction,
    NotYourTurn,
    InvalidPosition,
    InvalidShot,
    InvalidDamage,
    InvalidItemCollection,
}

/// Phases of a match.
#[derive(Clone, Copy, Debug, PartialEq, Eq, Structural)]
pub enum GamePhase {
    Active,
    Complete,
}

/// A position in the arena.
#[derive(Clone, Copy, Debug, PartialEq, Eq, Structural)]
pub struct Position {
    pub x: i32,
    pub y: i32,
    pub z: i32,
}

/// One player's state.
#[derive(Clone, Debug)]
pub struct PlayerState {
    pub health: i32,
    pub kills: u32,
    /// Hash of the player's hidden position and a salt.
    pub position_commitment: Option<Vec<u8>>,
    /// `0` pistol, `1` rifle, `2` shotgun, `3` sniper.
    pub weapon_type: u32,
    pub ammo: u32,
}

/// The record of one match.
#[derive(Clone, Debug)]
pub struct Game {
    pub player1: PlayerId,
    pub player2: PlayerId,
    pub player1_points: i128,
    pub player2_points: i128,
    pub player1_state: PlayerState,
    pub player2_state: PlayerState,
    pub kill_limit: u32,
    pub time_limit: u64,
    pub start_time: u64,
    pub current_turn: u32,
    pub last_actor: u32,
    pub winner: Option<PlayerId>,
    pub phase: GamePhase,
}

/// The state a player starts with: full health, no kills, a pistol.
pub open spec fn fresh_player(s: PlayerState) -> bool {
    s.health == MAX_HEALTH && s.kills == 0 && s.position_commitment is None && s.weapon_type == 0 && s.ammo == START_AMMO
}

/// A player's state after collecting an item of a known type: `0` a health
/// pack (+25, capped at 100), `1` ammunition (+30), `2` a weapon upgrade
/// (capped at the best weapon), `3` a shield (+50, past the cap).
pub open spec fn after_item(s: PlayerState, item: u32) -> PlayerState {
    if item == 0 {
        PlayerState { health: if s.health + 25 >= MAX_HEALTH { MAX_HEALTH } else { (s.health + 25) as i32 }, ..s }
    } else if item == 1 {
        PlayerState { ammo: (s.ammo + 30) as u32, ..s }
    } else if item == 2 {
        PlayerState { weapon_type: if s.weapon_type + 1 >= MAX_WEAPON { MAX_WEAPON } else { (s.weapon_type + 1) as u32 }, ..s }
    } else {
        PlayerState { health: (s.health + 50) as i32, ..s }
    }
}

/// A player's state whose counters leave room for any item or kill.
pub open spec fn has_headroom(s: PlayerState) -> bool {
    s.ammo <= u32::MAX - 30 && s.health <= i32::MAX - 50 && s.kills < u32::MAX
}

/// The value of a signal read as a small big-endian two's-complement integer.
pub open spec fn signal_i32(s: Seq<u8>) -> i32 {
    (be_value(prefix4(s)) as u32) as i32
}

impl Game {
    /// Distinct players.
    pub open spec fn wf(&self) -> bool {
        self.player1@ != self.player2@
    }
}

/// The shooter game: each operation checks and updates one match record.
pub struct InterstellarContract;

impl InterstellarContract {
    /// Creates an active match; both players start at full health with a
    /// pistol. A player cannot play against themself (`NotPlayer`).
    pub fn start_game(
        player1: PlayerId,
        player2: PlayerId,
        player1_points: i128,
        player2_points: i128,
        kill_limit: u32,
        time_limit: u64,
        start_time: u64,
    ) -> (r: Result<Game, Error>)
        ensures
            player1@ == player2@ <==> r == Err::<Game, Error>(Error::NotPlayer),
            player1@ != player2@ ==> r is Ok,
            r is Ok ==> {
                let g = r->Ok_0;
                &&& g.wf()
                &&& g.player1 == player1 && g.player2 == player2
                &&& g.player1_points == player1_points && g.player2_points == player2_points
                &&& fresh_player(g.player1_state) && fresh_player(g.player2_state)
                &&& g.kill_limit == kill_limit && g.time_limit == time_limit && g.start_time == start_time
                &&& g.current_turn == 0 && g.last_actor == 0
                &&& g.winner is None
                &&& g.phase == GamePhase::Active
            },
    {
        if bytes_equal(&player1, &player2) {
            return Err(Error::NotPlayer);
        }
        Ok(Game {
            player1,
            player2,
            player1_points,
            player2_points,
            player1_state: PlayerState {
                health: MAX_HEALTH,
                kills: 0,
                position_commitment: None,
                weapon_type: 0,
                ammo: START_AMMO,
            },
            player2_state: PlayerState {
                health: MAX_HEALTH,
                kills: 0,
                position_commitment: None,
                weapon_type: 0,
                ammo: START_AMMO,
            },
            kill_limit,
            time_limit,
            start_time,
            current_turn: 0,
            last_actor: 0,
            winner: None,
            phase: GamePhase::Active,
        })
    }

    /// Stores a player's commitment to their hidden position, replacing an
    /// earlier one.
    pub fn submit_position(game: &mut Game, player: &PlayerId, position_commitment: Vec<u8>) -> (r: Result<(), Error>)
        requires
            old(game).wf(),
        ensures
            final(game).wf(),
            old(game).phase != GamePhase::Active ==> r == Err::<(), Error>(Error::GameAlreadyEnded) && *final(game) == *old(game),
            old(game).phase == GamePhase::Active && player@ != old(game).player1@ && player@ != old(game).player2@
                ==> r == Err::<(), Error>(Error::NotPlayer) && *final(game) == *old(game),
            old(game).phase == GamePhase::Active && player@ == old(game).player1@ ==> r is Ok && *final(game) == (Game {
                player1_state: PlayerState { position_commitment: Some(position_commitment), ..old(game).player1_state },
                ..*old(game)
            }),
            old(game).phase == GamePhase::Active && player@ == old(game).player2@ ==> r is Ok && *final(game) == (Game {
                player2_state: PlayerState { position_commitment: Some(position_commitment), ..old(game).player2_state },
                ..*old(game)
            }),
    {
        if game.phase != GamePhase::Active {
            return Err(Error::GameAlreadyEnded);
        }
        if bytes_equal(player, &game.player1) {
            game.player1_state.position_commitment = Some(position_commitment);
        } else if bytes_equal(player, &game.player2) {
            game.player2_state.position_commitment = Some(position_commitment);
        } else {
            return Err(Error::NotPlayer);
        }
        Ok(())
    }

    /// Checks a proof against one of the circuit keys; a missing key or a
    /// proof that does not verify is `InvalidProof`.
    pub fn verify_proof(
        env: &Env,
        vk: &Option<VerificationKey>,
        proof: &Groth16Proof,
        public_signals: &Vec<Vec<u8>>,
    ) -> (r: Result<(), Error>)
        requires
            admissible(*vk, *proof, views(public_signals@)),
        ensures
            proof_accepted(*vk, *proof, views(public_signals@)) <==> r is Ok,
            r is Err ==> r == Err::<(), Error>(Error::InvalidProof),
    {
        if accepts(env, vk, proof, public_signals) {
            Ok(())
        } else {
            Err(Error::InvalidProof)
        }
    }

    /// A shot, proved with the shooting circuit (signals: shooter position
    /// commitment, target position commitment, hit flag). Counts the turn,
    /// records the shooter, and says whether the shot hit (flag `1`).
    pub fn shoot(
        env: &Env,
        game: &mut Game,
        shooter: &PlayerId,
        proof: &Groth16Proof,
        public_signals: &Vec<Vec<u8>>,
        vk: &Option<VerificationKey>,
    ) -> (r: Result<bool, Error>)
        requires
            old(game).phase == GamePhase::Active && (shooter@ == old(game).player1@ || shooter@ == old(game).player2@) ==> admissible(*vk, *proof, views(public_signals@)),
            old(game).wf(),
            old(game).current_turn < u32::MAX,
        ensures
            final(game).wf(),
            r is Err ==> *final(game) == *old(game),
            old(game).phase != GamePhase::Active ==> r == Err::<bool, Error>(Error::GameAlreadyEnded),
            old(game).phase == GamePhase::Active && shooter@ != old(game).player1@ && shooter@ != old(game).player2@
                ==> r == Err::<bool, Error>(Error::NotPlayer),
            old(game).phase == GamePhase::Active && (shooter@ == old(game).player1@ || shooter@ == old(game).player2@) ==> {
                &&& !proof_accepted(*vk, *proof, views(public_signals@)) ==> r == Err::<bool, Error>(Error::InvalidProof)
                &&& proof_accepted(*vk, *proof, views(public_signals@)) && public_signals@.len() < ACTION_SIGNALS
                    ==> r == Err::<bool, Error>(Error::InvalidProof)
                &&& proof_accepted(*vk, *proof, views(public_signals@)) && public_signals@.len() >= ACTION_SIGNALS ==> {
                    &&& r == Ok::<bool, Error>(signal_u32(public_signals@[2]@) == 1)
                    &&& *final(game) == (Game {
                        current_turn: (old(game).current_turn + 1) as u32,
                        last_actor: if shooter@ == old(game).player1@ { 0u32 } else { 1u32 },
                        ..*old(game)
                    })
                }
            },
    {
        if game.phase != GamePhase::Active {
            return Err(Error::GameAlreadyEnded);
        }
        let is_p1 = bytes_equal(shooter, &game.player1);
        if !is_p1 && !bytes_equal(shooter, &game.player2) {
            return Err(Error::NotPlayer);
        }
        Self::verify_proof(env, vk, proof, public_signals)?;
        if public_signals.len() < ACTION_SIGNALS {
            return Err(Error::InvalidProof);
        }
        let hit = bytes_to_u32(&public_signals[2]) == 1;
        game.current_turn = game.current_turn + 1;
        game.last_actor = if is_p1 {
            0
        } else {
            1
        };
        Ok(hit)
    }
    /// Damage, proved with the damage circuit (signals: old health, new
    /// health, weapon). Sets the target's health to the proved new health;
    /// a target at zero or below gives the other player a kill.
    pub fn apply_damage(
        env: &Env,
        game: &mut Game,
        target: &PlayerId,
        proof: &Groth16Proof,
        public_signals: &Vec<Vec<u8>>,
        vk: &Option<VerificationKey>,
    ) -> (r: Result<(), Error>)
        requires
            old(game).phase == GamePhase::Active ==> admissible(*vk, *proof, views(public_signals@)),
            old(game).wf(),
            old(game).player1_state.kills < u32::MAX,
            old(game).player2_state.kills < u32::MAX,
        ensures
            final(game).wf(),
            r is Err ==> *final(game) == *old(game),
            old(game).phase != GamePhase::Active ==> r == Err::<(), Error>(Error::GameAlreadyEnded),
            old(game).phase == GamePhase::Active ==> {
                let ok = proof_accepted(*vk, *proof, views(public_signals@)) && public_signals@.len() >= ACTION_SIGNALS;
                let nh = signal_i32(public_signals@[1]@);
                &&& !ok ==> r == Err::<(), Error>(Error::InvalidProof)
                &&& ok && target@ != old(game).player1@ && target@ != old(game).player2@ ==> r == Err::<(), Error>(Error::NotPlayer)
                &&& ok && target@ == old(game).player1@ ==> r is Ok && *final(game) == (Game {
                    player1_state: PlayerState { health: nh, ..old(game).player1_state },
                    player2_state: PlayerState {
                        kills: if nh <= 0 { (old(game).player2_state.kills + 1) as u32 } else { old(game).player2_state.kills },
                        ..old(game).player2_state
                    },
                    ..*old(game)
                })
                &&& ok && target@ == old(game).player2@ ==> r is Ok && *final(game) == (Game {
                    player2_state: PlayerState { health: nh, ..old(game).player2_state },
                    player1_state: PlayerState {
                        kills: if nh <= 0 { (old(game).player1_state.kills + 1) as u32 } else { old(game).player1_state.kills },
                        ..old(game).player1_state
                    },
                    ..*old(game)
                })
            },
    {
        if game.phase != GamePhase::Active {
            return Err(Error::GameAlreadyEnded);
        }
        Self::verify_proof(env, vk, proof, public_signals)?;
        if public_signals.len() < ACTION_SIGNALS {
            return Err(Error::InvalidProof);
        }
        let new_health = bytes_to_i32(&public_signals[1]);
        if bytes_equal(target, &game.player1) {
            game.player1_state.health = new_health;
            if new_health <= 0 {
                game.player2_state.kills = game.player2_state.kills + 1;
            }
        } else if bytes_equal(target, &game.player2) {
            game.player2_state.health = new_health;
            if new_health <= 0 {
                game.player1_state.kills = game.player1_state.kills + 1;
            }
        } else {
            return Err(Error::NotPlayer);
        }
        Ok(())
    }

    /// Applies an item to a player's state (see `after_item`); refuses an
    /// unknown item type, leaving the state as it was.
    pub fn collect_effect(state: &mut PlayerState, item_type: u32) -> (r: bool)
        requires
            has_headroom(*old(state)),
        ensures
            r == (item_type <= 3),
            r ==> *final(state) == after_item(*old(state), item_type),
            !r ==> *final(state) == *old(state),
    {
        if item_type == 0 {
            state.health = if state.health >= MAX_HEALTH - 25 {
                MAX_HEALTH
            } else {
                state.health + 25
            };
        } else if item_type == 1 {
            state.ammo = state.ammo + 30;
        } else if item_type == 2 {
            state.weapon_type = if state.weapon_type >= MAX_WEAPON - 1 {
                MAX_WEAPON
            } else {
                state.weapon_type + 1
            };
        } else if item_type == 3 {
            state.health = state.health + 50;
        } else {
            return false;
        }
        true
    }

    /// An item pickup, proved with the item circuit (signals: position
    /// commitment, item type, collected flag). The flag must be `1` and the
    /// type known (`InvalidItemCollection`); the item then takes effect (see
    /// `after_item`).
    pub fn collect_item(
        env: &Env,
        game: &mut Game,
        player: &PlayerId,
        proof: &Groth16Proof,
        public_signals: &Vec<Vec<u8>>,
        vk: &Option<VerificationKey>,
    ) -> (r: Result<(), Error>)
        requires
            old(game).phase == GamePhase::Active ==> admissible(*vk, *proof, views(public_signals@)),
            old(game).wf(),
            has_headroom(old(game).player1_state),
            has_headroom(old(game).player2_state),
        ensures
            final(game).wf(),
            r is Err ==> *final(game) == *old(game),
            old(game).phase != GamePhase::Active ==> r == Err::<(), Error>(Error::GameAlreadyEnded),
            old(game).phase == GamePhase::Active ==> {
                let ok = proof_accepted(*vk, *proof, views(public_signals@)) && public_signals@.len() >= ACTION_SIGNALS;
                let item = signal_u32(public_signals@[1]@);
                let collected = signal_u32(public_signals@[2]@) == 1;
                let is_player = player@ == old(game).player1@ || player@ == old(game).player2@;
                &&& !ok ==> r == Err::<(), Error>(Error::InvalidProof)
                &&& ok && !collected ==> r == Err::<(), Error>(Error::InvalidItemCollection)
                &&& ok && collected && !is_player ==> r == Err::<(), Error>(Error::NotPlayer)
                &&& ok && collected && is_player && item > 3 ==> r == Err::<(), Error>(Error::InvalidItemCollection)
                &&& ok && collected && item <= 3 && player@ == old(game).player1@ ==> r is Ok && *final(game) == (Game {
                    player1_state: after_item(old(game).player1_state, item),
                    ..*old(game)
                })
                &&& ok && collected && item <= 3 && player@ == old(game).player2@ ==> r is Ok && *final(game) == (Game {
                    player2_state: after_item(old(game).player2_state, item),
                    ..*old(game)
                })
            },
    {
        if game.phase != GamePhase::Active {
            return Err(Error::GameAlreadyEnded);
        }
        Self::verify_proof(env, vk, proof, public_signals)?;
        if public_signals.len() < ACTION_SIGNALS {
            return Err(Error::InvalidProof);
        }
        let item_type = bytes_to_u32(&public_signals[1]);
        let collected = bytes_to_u32(&public_signals[2]) == 1;
        if !collected {
            return Err(Error::InvalidItemCollection);
        }
        let ok = if bytes_equal(player, &game.player1) {
            Self::collect_effect(&mut game.player1_state, item_type)
        } else if bytes_equal(player, &game.player2) {
            Self::collect_effect(&mut game.player2_state, item_type)
        } else {
            return Err(Error::NotPlayer);
        };
        if !ok {
            return Err(Error::InvalidItemCollection);
        }
        Ok(())
    }

    /// Ends the match with a win proof (signals: kills, health, winner code,
    /// reason). The winner code `2` names player 2, any other code player 1
    /// (ties included). Once a winner is recorded, returns it again and
    /// changes nothing.
    pub fn determine_winner(
        env: &Env,
        game: &mut Game,
        proof: &Groth16Proof,
        public_signals: &Vec<Vec<u8>>,
        vk: &Option<VerificationKey>,
    ) -> (r: Result<PlayerId, Error>)
        requires
            old(game).winner is None ==> admissible(*vk, *proof, views(public_signals@)),
            old(game).wf(),
        ensures
            final(game).wf(),
            r is Err ==> *final(game) == *old(game),
            old(game).winner is Some ==> r is Ok && r->Ok_0@ == old(game).winner->Some_0@ && *final(game) == *old(game),
            old(game).winner is None ==> {
                let ok = proof_accepted(*vk, *proof, views(public_signals@)) && public_signals@.len() >= WIN_SIGNALS;
                &&& !ok ==> r == Err::<PlayerId, Error>(Error::InvalidProof)
                &&& ok ==> {
                    &&& r is Ok
                    &&& r->Ok_0@ == if code_names_player1(signal_u32(public_signals@[4]@)) {
                        old(game).player1@
                    } else {
                        old(game).player2@
                    }
                    &&& final(game).winner is Some
                    &&& final(game).winner->Some_0@ == r->Ok_0@
                    &&& *final(game) == (Game { winner: final(game).winner, phase: GamePhase::Complete, ..*old(game) })
                }
            },
    {
        if let Some(w) = &game.winner {
            return Ok(copy_bytes(w));
        }
        Self::verify_proof(env, vk, proof, public_signals)?;
        if public_signals.len() < WIN_SIGNALS {
            return Err(Error::InvalidProof);
        }
        let winner_signal = bytes_to_u32(&public_signals[4]);
        let winner = if winner_signal == 2 {
            copy_bytes(&game.player2)
        } else {
            copy_bytes(&game.player1)
        };
        game.winner = Some(copy_bytes(&winner));
        game.phase = GamePhase::Complete;
        Ok(winner)
    }
}

} // verus!
