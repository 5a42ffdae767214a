//! Two-player games whose fairness rests on commit-reveal randomness and
//! Groth16 proofs, with each operation's contract proved.
//!
//! - `dead_mans_draw`: the commit-reveal protocol that picks the first
//!   player, and the draw/bank/bust turn loop of a card game (`card`).
//! - `poker`: hole-card commitments, the no-limit betting-round engine and
//!   the proof-checked showdown; `deal` shuffles and deals community cards.
//! - `interstellar`: a shooter whose shots, damage, pickups and winner are
//!   proved; `etherion`: a duel's turn structure.
//! - `groth16`: the proof verifier over BN254 (`bn254`: point encodings and
//!   the host's curve operations); `digest`: the host's hash functions.
//! - `bytes`: byte-string helpers and big-endian signal decoding.
//!
//! Each operation takes the session record and returns the new record or
//! an error that leaves it unchanged; storage, caller authorization and the
//! settlement hub stay with the caller.

pub mod bn254;
pub mod bytes;
pub mod card;
pub mod dead_mans_draw;
pub mod deal;
pub mod digest;
pub mod etherion;
pub mod groth16;
pub mod interstellar;
pub mod poker;
