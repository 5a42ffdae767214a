use soroban_sdk::Env;
use zk_games::groth16::{Groth16Proof, VerificationKey};
use zk_games::poker::{Action, Error, Game, HandOutcome, Phase, PockerContract};

fn p1() -> Vec<u8> {
    b"GPOKERONE".to_vec()
}

fn p2() -> Vec<u8> {
    b"GPOKERTWO".to_vec()
}

fn new_game() -> Game {
    PockerContract::start_game(p1(), p2(), 100i128, 100i128).unwrap()
}

fn preflop_game() -> Game {
    let mut game = new_game();
    PockerContract::submit_hole_commitment(&mut game, &p1(), b"commitment1_hash".to_vec()).unwrap();
    PockerContract::submit_hole_commitment(&mut game, &p2(), b"commitment2_hash".to_vec()).unwrap();
    game
}

fn zero_proof() -> Groth16Proof {
    Groth16Proof { pi_a: vec![0u8; 64], pi_b: vec![1u8; 128], pi_c: vec![2u8; 64] }
}

#[test]
fn test_test_start_game() {
    let game = new_game();
    assert_eq!(game.player1, p1());
    assert_eq!(game.player2, p2());
    assert_eq!(game.player1_points, 100i128);
    assert_eq!(game.player2_points, 100i128);
    assert_eq!(game.phase, Phase::Commit);
    assert!(game.winner.is_none());
    assert_eq!(game.player1_stack, 100);
    assert_eq!(game.pot, 0);
}

#[test]
fn self_play_is_refused() {
    assert_eq!(PockerContract::start_game(p1(), p1(), 100, 100).err(), Some(Error::NotPlayer));
}

#[test]
fn test_commit_phase() {
    let mut game = new_game();
    let commitment1 = b"commitment1_hash_poseidon_12345678901234567890".to_vec();
    PockerContract::submit_hole_commitment(&mut game, &p1(), commitment1).unwrap();
    assert!(game.player1_hole_commitment.is_some());
    assert!(game.player2_hole_commitment.is_none());
    assert_eq!(game.phase, Phase::Commit);

    let commitment2 = b"commitment2_hash_poseidon_98765432109876543210".to_vec();
    PockerContract::submit_hole_commitment(&mut game, &p2(), commitment2).unwrap();
    assert!(game.player1_hole_commitment.is_some());
    assert!(game.player2_hole_commitment.is_some());
    assert_eq!(game.phase, Phase::Preflop);
}

#[test]
#[should_panic(expected = "AlreadyCommitted")]
fn test_cannot_commit_twice() {
    let mut game = new_game();
    let commitment = b"commitment_hash".to_vec();
    PockerContract::submit_hole_commitment(&mut game, &p1(), commitment.clone()).unwrap();
    PockerContract::submit_hole_commitment(&mut game, &p1(), commitment).unwrap();
}

#[test]
fn test_reveal_winner() {
    let env = Env::default();
    let mut game = preflop_game();
    let public_signals = vec![
        b"commitment1_hash".to_vec(),
        b"commitment2_hash".to_vec(),
        b"community_commitment".to_vec(),
        vec![5u8],
        vec![3u8],
        vec![1u8],
    ];
    // betting has not reached the showdown yet
    let r = PockerContract::reveal_winner(&env, &mut game, &zero_proof(), &public_signals, &None);
    assert_eq!(r, Err(Error::NotInPhase));
    assert!(game.winner.is_none());
}

#[test]
#[should_panic(expected = "NotInPhase")]
fn test_cannot_reveal_before_commit() {
    let env = Env::default();
    let mut game = new_game();
    let proof = Groth16Proof { pi_a: vec![], pi_b: vec![], pi_c: vec![] };
    let public_signals: Vec<Vec<u8>> = Vec::new();
    PockerContract::reveal_winner(&env, &mut game, &proof, &public_signals, &None).unwrap();
}

#[test]
fn bet_then_call_completes_the_round() {
    let mut game = preflop_game();
    assert_eq!(PockerContract::player_action(&mut game, &p1(), Action::Bet(20)), Ok(HandOutcome::Continue));
    assert!(!PockerContract::is_betting_round_complete(&game));
    assert_eq!(game.phase, Phase::Preflop);
    assert_eq!(game.current_actor, 1);
    assert_eq!((game.player1_bet, game.player2_bet), (20, 0));

    assert_eq!(PockerContract::player_action(&mut game, &p2(), Action::Call), Ok(HandOutcome::Continue));
    assert_eq!(game.phase, Phase::Flop);
    assert_eq!((game.player1_bet, game.player2_bet), (0, 0));
    assert_eq!(game.pot, 40);
    assert_eq!((game.player1_stack, game.player2_stack), (80, 80));
    assert_eq!(game.current_actor, 0);
    assert_eq!(game.last_action, Action::NoAction);
    assert_eq!(game.actions_this_round, 0);
}

#[test]
fn minimum_raise_is_enforced() {
    let mut game = preflop_game();
    PockerContract::player_action(&mut game, &p1(), Action::Bet(20)).unwrap();
    assert_eq!(game.last_raise_amount, 20);
    // player 2 faces a bet of 20 after a raise size of 20: the minimum is 40
    let before = game.clone();
    assert_eq!(PockerContract::player_action(&mut game, &p2(), Action::Raise(30)), Err(Error::NotInPhase));
    assert_eq!(game.pot, before.pot);
    assert_eq!(game.player2_stack, before.player2_stack);
    assert_eq!(PockerContract::player_action(&mut game, &p2(), Action::Raise(40)), Ok(HandOutcome::Continue));
    assert_eq!(game.player2_bet, 40);
    assert_eq!(game.player2_stack, 60);
    assert_eq!(game.pot, 60);
    assert_eq!(game.last_raise_amount, 20);
    assert_eq!(game.phase, Phase::Preflop);
}

#[test]
fn single_check_does_not_close_the_round() {
    let mut game = preflop_game();
    PockerContract::player_action(&mut game, &p1(), Action::Check).unwrap();
    assert_eq!(game.phase, Phase::Preflop);
    assert_eq!(game.current_actor, 1);
    PockerContract::player_action(&mut game, &p2(), Action::Check).unwrap();
    assert_eq!(game.phase, Phase::Flop);
}

#[test]
fn raise_never_closes_the_round() {
    let mut game = preflop_game();
    PockerContract::player_action(&mut game, &p1(), Action::Bet(10)).unwrap();
    PockerContract::player_action(&mut game, &p2(), Action::Raise(30)).unwrap();
    assert_eq!(game.phase, Phase::Preflop);
    assert_eq!(game.current_actor, 0);
    PockerContract::player_action(&mut game, &p1(), Action::Call).unwrap();
    assert_eq!(game.phase, Phase::Flop);
    assert_eq!(game.pot, 60);
}

#[test]
fn fold_ends_the_hand_for_the_opponent() {
    let mut game = preflop_game();
    let r = PockerContract::player_action(&mut game, &p1(), Action::Fold);
    assert_eq!(r, Ok(HandOutcome::Folded { player1_won: false }));
    assert_eq!(game.winner, Some(p2()));
    assert_eq!(game.phase, Phase::Complete);
    let r = PockerContract::player_action(&mut game, &p1(), Action::Check);
    assert_eq!(r, Ok(HandOutcome::Decided { player1_won: false }));
    assert_eq!(game.phase, Phase::Complete);
}

#[test]
fn out_of_turn_and_illegal_actions_are_refused() {
    let mut game = preflop_game();
    assert_eq!(PockerContract::player_action(&mut game, &p2(), Action::Check), Err(Error::NotYourTurn));
    assert_eq!(PockerContract::player_action(&mut game, &b"GSTRANGER".to_vec(), Action::Check), Err(Error::NotPlayer));
    assert_eq!(PockerContract::player_action(&mut game, &p1(), Action::Call), Err(Error::NotInPhase));
    assert_eq!(PockerContract::player_action(&mut game, &p1(), Action::Bet(101)), Err(Error::NotInPhase));
    assert_eq!(PockerContract::player_action(&mut game, &p1(), Action::Bet(-5)), Err(Error::NotInPhase));
    assert_eq!(PockerContract::player_action(&mut game, &p1(), Action::NoAction), Err(Error::NotInPhase));
    let mut fresh = new_game();
    assert_eq!(PockerContract::player_action(&mut fresh, &p1(), Action::Check), Err(Error::NotInPhase));
}

#[test]
fn all_in_and_call_reach_showdown_after_river() {
    let mut game = preflop_game();
    PockerContract::player_action(&mut game, &p1(), Action::AllIn).unwrap();
    assert_eq!(game.player1_stack, 0);
    PockerContract::player_action(&mut game, &p2(), Action::Call).unwrap();
    assert_eq!(game.phase, Phase::Flop);
    assert_eq!(game.pot, 200);
    for phase in [Phase::Turn, Phase::River, Phase::Showdown] {
        PockerContract::player_action(&mut game, &p1(), Action::Check).unwrap();
        PockerContract::player_action(&mut game, &p2(), Action::Check).unwrap();
        assert_eq!(game.phase, phase);
    }
}

/// A 32-byte public signal whose first four bytes hold `v`, big-endian.
fn sig(v: u32) -> Vec<u8> {
    let mut s = v.to_be_bytes().to_vec();
    s.resize(32, 0);
    s
}

#[test]
fn showdown_checks_commitments_before_the_proof() {
    let env = Env::default();
    let mut game = new_game();
    PockerContract::submit_hole_commitment(&mut game, &p1(), vec![0x11u8; 32]).unwrap();
    PockerContract::submit_hole_commitment(&mut game, &p2(), vec![0x12u8; 32]).unwrap();
    PockerContract::submit_community_commitment(&mut game, vec![0x13u8; 32]).unwrap();
    for _ in 0..4 {
        PockerContract::player_action(&mut game, &p1(), Action::Check).unwrap();
        PockerContract::player_action(&mut game, &p2(), Action::Check).unwrap();
    }
    assert_eq!(game.phase, Phase::Showdown);
    let mut signals = vec![vec![0x11u8; 32], vec![0x14u8; 32], vec![0x13u8; 32], sig(5), sig(3), sig(1)];
    let r = PockerContract::reveal_winner(&env, &mut game, &zero_proof(), &signals, &None);
    assert_eq!(r, Err(Error::InvalidCommitment));
    signals[1] = vec![0x12u8; 32];
    let r = PockerContract::reveal_winner(&env, &mut game, &zero_proof(), &signals, &None);
    assert_eq!(r, Err(Error::InvalidProof));
    let short = signals[..5].to_vec();
    let r = PockerContract::reveal_winner(&env, &mut game, &zero_proof(), &short, &None);
    assert_eq!(r, Err(Error::InvalidProof));
    // a key for six inputs whose points are the identity: the equation holds
    let vk = VerificationKey {
        alpha: vec![0u8; 64],
        beta: vec![0u8; 128],
        gamma: vec![0u8; 128],
        delta: vec![0u8; 128],
        ic: vec![vec![0u8; 64]; 7],
    };
    let proof = Groth16Proof { pi_a: vec![0u8; 64], pi_b: vec![0u8; 128], pi_c: vec![0u8; 64] };
    // a signal that is not a 32-byte scalar fails verification
    let mut bad = signals.clone();
    bad[3] = vec![5u8];
    let r = PockerContract::reveal_winner(&env, &mut game, &proof, &bad, &Some(vk.clone()));
    assert_eq!(r, Err(Error::InvalidProof));
    let winner = PockerContract::reveal_winner(&env, &mut game, &proof, &signals, &Some(vk)).unwrap();
    assert_eq!(winner, p1());
    assert_eq!(game.phase, Phase::Complete);
    assert_eq!(game.player1_ranking, Some(5));
    assert_eq!(game.player2_ranking, Some(3));
    let again = PockerContract::reveal_winner(&env, &mut game, &zero_proof(), &signals, &None).unwrap();
    assert_eq!(again, p1());
}

#[test]
fn apply_showdown_reads_winner_code() {
    let mut game = preflop_game();
    let signals = vec![vec![], vec![], vec![], vec![0, 0, 0, 7], vec![9u8], vec![2u8]];
    let winner = PockerContract::apply_showdown(&mut game, &signals);
    assert_eq!(winner, p2());
    assert_eq!(game.player1_ranking, Some(7));
    assert_eq!(game.player2_ranking, Some(9));
    let mut tie = preflop_game();
    let signals = vec![vec![], vec![], vec![], vec![1u8], vec![1u8], vec![0u8]];
    assert_eq!(PockerContract::apply_showdown(&mut tie, &signals), p1());
}

#[test]
fn showdown_without_commitments_is_not_committed() {
    let env = Env::default();
    let mut game = new_game();
    game.phase = Phase::Showdown;
    let signals = vec![vec![0u8]; 6];
    let r = PockerContract::reveal_winner(&env, &mut game, &zero_proof(), &signals, &None);
    assert_eq!(r, Err(Error::NotCommitted));
}

#[test]
fn community_commitment_waits_for_hole_cards() {
    let mut game = new_game();
    assert_eq!(PockerContract::submit_community_commitment(&mut game, vec![1u8]), Err(Error::NotInPhase));
    let mut game = preflop_game();
    PockerContract::submit_community_commitment(&mut game, vec![1u8]).unwrap();
    assert_eq!(game.community_commitment, Some(vec![1u8]));
}
