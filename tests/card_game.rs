use soroban_sdk::Env;
use zk_games::card::{Card, Error};
use zk_games::dead_mans_draw::{DeadMansDrawContract, GameState, Phase, TurnOutcome, MAX_BUSTS};

fn p1() -> Vec<u8> {
    b"GPLAYERONE".to_vec()
}

fn p2() -> Vec<u8> {
    b"GPLAYERTWO".to_vec()
}

fn sha256(env: &Env, data: &[u8]) -> Vec<u8> {
    env.crypto().sha256(&soroban_sdk::Bytes::from_slice(env, data)).to_array().to_vec()
}

fn new_game() -> GameState {
    DeadMansDrawContract::start_game(12345u32, p1(), p2(), vec![1u8; 32], vec![2u8; 32]).unwrap()
}

fn playing_game(env: &Env) -> GameState {
    let mut state = new_game();
    let seed1_raw = vec![1u8; 32];
    let seed2_raw = vec![2u8; 32];
    DeadMansDrawContract::commit(&mut state, &p1(), sha256(env, &seed1_raw)).unwrap();
    DeadMansDrawContract::commit(&mut state, &p2(), sha256(env, &seed2_raw)).unwrap();
    DeadMansDrawContract::reveal_seed(env, &mut state, &p1(), &seed1_raw).unwrap();
    DeadMansDrawContract::reveal_seed(env, &mut state, &p2(), &seed2_raw).unwrap();
    state
}

#[test]
fn test_card_encoding() {
    let card = Card::from_id(0).unwrap();
    assert_eq!(card.suit, 0);
    assert_eq!(card.rank, 1);
    assert_eq!(card.to_id(), 0);
    assert_eq!(card.value(), 1);

    let card = Card::from_id(9).unwrap();
    assert_eq!(card.suit, 0);
    assert_eq!(card.rank, 10);
    assert_eq!(card.to_id(), 9);
    assert_eq!(card.value(), 10);

    let card = Card::from_id(10).unwrap();
    assert_eq!(card.suit, 1);
    assert_eq!(card.rank, 1);
    assert_eq!(card.to_id(), 10);

    let card = Card::from_id(25).unwrap();
    assert_eq!(card.suit, 2);
    assert_eq!(card.rank, 6);
    assert_eq!(card.to_id(), 25);

    let card = Card::from_id(39).unwrap();
    assert_eq!(card.suit, 3);
    assert_eq!(card.rank, 10);
    assert_eq!(card.to_id(), 39);
    assert_eq!(card.value(), 10);
}

#[test]
fn card_ids_round_trip_over_the_deck() {
    for id in 0u32..40 {
        assert_eq!(Card::from_id(id).unwrap().to_id(), id);
    }
}

#[test]
fn card_id_past_the_deck_is_invalid() {
    assert_eq!(Card::from_id(40), Err(Error::InvalidCard));
    assert_eq!(Card::from_id(u32::MAX), Err(Error::InvalidCard));
}

#[test]
fn test_game_initialization() {
    let state = new_game();
    assert_eq!(state.phase, Phase::Commit);
    assert_eq!(state.session_id, 12345u32);
    assert_eq!(state.p1_score, 0);
    assert_eq!(state.p2_score, 0);
    assert_eq!(state.p1_busts, 0);
    assert_eq!(state.p2_busts, 0);
    assert_eq!(state.active_player, p1());
    assert_eq!(state.turn_number, 1);
}

#[test]
fn test_commit_reveal_flow() {
    let env = Env::default();
    let mut state = new_game();
    let seed1_raw = vec![1u8; 32];
    let seed2_raw = vec![2u8; 32];
    DeadMansDrawContract::commit(&mut state, &p1(), sha256(&env, &seed1_raw)).unwrap();
    DeadMansDrawContract::commit(&mut state, &p2(), sha256(&env, &seed2_raw)).unwrap();
    assert_eq!(state.phase, Phase::Reveal);

    DeadMansDrawContract::reveal_seed(&env, &mut state, &p1(), &seed1_raw).unwrap();
    DeadMansDrawContract::reveal_seed(&env, &mut state, &p2(), &seed2_raw).unwrap();
    assert_eq!(state.phase, Phase::Playing);
    assert!(state.p1_revealed);
    assert!(state.p2_revealed);
}

#[test]
fn starting_player_follows_last_byte_of_entropy_digest() {
    let env = Env::default();
    let state = playing_game(&env);
    let mut entropy = vec![1u8; 32];
    entropy.extend_from_slice(&[2u8; 32]);
    assert_eq!(state.shared_seed, entropy);
    let digest = sha256(&env, &entropy);
    let expected = if digest[31] % 2 == 0 { p1() } else { p2() };
    assert_eq!(state.active_player, expected);
    let again = playing_game(&env);
    assert_eq!(again.active_player, state.active_player);
}

#[test]
fn wrong_preimage_is_invalid_commitment() {
    let env = Env::default();
    let mut state = new_game();
    DeadMansDrawContract::commit(&mut state, &p1(), sha256(&env, &[1u8; 32])).unwrap();
    DeadMansDrawContract::commit(&mut state, &p2(), sha256(&env, &[2u8; 32])).unwrap();
    let before = state.clone();
    let r = DeadMansDrawContract::reveal_seed(&env, &mut state, &p1(), &vec![9u8; 32]);
    assert_eq!(r, Err(Error::InvalidCommitment));
    assert_eq!(state.shared_seed, before.shared_seed);
    assert!(!state.p1_revealed);
}

#[test]
fn second_commit_and_second_reveal_are_refused() {
    let env = Env::default();
    let mut state = new_game();
    DeadMansDrawContract::commit(&mut state, &p1(), sha256(&env, &[1u8; 32])).unwrap();
    assert_eq!(
        DeadMansDrawContract::commit(&mut state, &p1(), sha256(&env, &[3u8; 32])),
        Err(Error::InvalidCommitment)
    );
    DeadMansDrawContract::commit(&mut state, &p2(), sha256(&env, &[2u8; 32])).unwrap();
    DeadMansDrawContract::reveal_seed(&env, &mut state, &p1(), &vec![1u8; 32]).unwrap();
    assert_eq!(
        DeadMansDrawContract::reveal_seed(&env, &mut state, &p1(), &vec![1u8; 32]),
        Err(Error::InvalidCommitment)
    );
    assert_eq!(state.shared_seed, vec![1u8; 32]);
}

#[test]
fn stranger_cannot_commit_or_reveal() {
    let env = Env::default();
    let mut state = new_game();
    let stranger = b"GSTRANGER".to_vec();
    assert_eq!(DeadMansDrawContract::commit(&mut state, &stranger, vec![0u8; 32]), Err(Error::NotPlayer));
    assert_eq!(
        DeadMansDrawContract::reveal_seed(&env, &mut state, &p1(), &vec![1u8; 32]),
        Err(Error::NotInPhase)
    );
}

#[test]
fn test_draw_and_bank() {
    let env = Env::default();
    let mut state = playing_game(&env);
    let mock_proof = vec![0xABu8; 64];

    DeadMansDrawContract::draw_card(&mut state, 5u32, &mock_proof, false, 0b0001u32).unwrap();
    assert_eq!(state.turn_score, 6);
    assert_eq!(state.turn_suits_mask, 0b0001);

    DeadMansDrawContract::draw_card(&mut state, 18u32, &mock_proof, false, 0b0011u32).unwrap();
    assert_eq!(state.turn_score, 15);
    assert_eq!(state.turn_suits_mask, 0b0011);

    DeadMansDrawContract::bank_cards(&mut state).unwrap();
    let active_was_p1 = state.active_player == p2();
    if active_was_p1 {
        assert_eq!(state.p1_score, 15);
        assert_eq!(state.p2_score, 0);
    } else {
        assert_eq!(state.p1_score, 0);
        assert_eq!(state.p2_score, 15);
    }
    assert_eq!(state.turn_score, 0);
    assert_eq!(state.turn_suits_mask, 0);
}

#[test]
fn test_bust_detection() {
    let env = Env::default();
    let mut state = playing_game(&env);
    let mock_proof = vec![0xABu8; 64];

    DeadMansDrawContract::draw_card(&mut state, 5u32, &mock_proof, false, 0b0001u32).unwrap();
    let initial_player = state.active_player.clone();
    assert_eq!(state.turn_score, 6);

    DeadMansDrawContract::draw_card(&mut state, 7u32, &mock_proof, true, 0b0001u32).unwrap();
    assert_eq!(state.turn_score, 0);
    assert_eq!(state.turn_suits_mask, 0);
    assert!(state.active_player != initial_player);
    if initial_player == p1() {
        assert_eq!(state.p1_busts, 1);
        assert_eq!(state.p2_busts, 0);
    } else {
        assert_eq!(state.p1_busts, 0);
        assert_eq!(state.p2_busts, 1);
    }
}

#[test]
fn test_win_by_score() {
    let env = Env::default();
    let mut state = playing_game(&env);
    let mock_proof = vec![0xABu8; 64];
    let cards_to_draw = [9u32, 19u32, 29u32, 39u32, 8u32, 18u32, 1u32];
    for (i, card_id) in cards_to_draw.iter().enumerate() {
        let mask = 1u32 << (i % 4);
        DeadMansDrawContract::draw_card(&mut state, *card_id, &mock_proof, false, mask).unwrap();
    }
    assert_eq!(state.turn_score, 60);
    let outcome = DeadMansDrawContract::bank_cards(&mut state).unwrap();
    assert_eq!(state.phase, Phase::Finished);
    let p1_active = state.active_player == p1();
    assert_eq!(outcome, TurnOutcome::GameOver { player1_won: p1_active });
}

#[test]
fn bust_limit_ends_game_for_opponent_with_no_score() {
    let env = Env::default();
    let mut state = playing_game(&env);
    let proof = vec![1u8];
    let loser = state.active_player.clone();
    let mut outcome = TurnOutcome::Continue;
    for _ in 0..MAX_BUSTS {
        // the loser busts on each of their turns; the other player banks nothing
        assert_eq!(state.active_player, loser);
        outcome = DeadMansDrawContract::draw_card(&mut state, 3u32, &proof, true, 0u32).unwrap();
        if state.phase == Phase::Finished {
            break;
        }
        DeadMansDrawContract::bank_cards(&mut state).unwrap();
    }
    assert_eq!(state.phase, Phase::Finished);
    assert_eq!(state.p1_score, 0);
    assert_eq!(state.p2_score, 0);
    assert_eq!(outcome, TurnOutcome::GameOver { player1_won: loser == p2() });
    let busts = (state.p1_busts, state.p2_busts);
    let again = DeadMansDrawContract::draw_card(&mut state, 3u32, &proof, true, 0u32).unwrap();
    assert_eq!(again, outcome);
    assert_eq!(DeadMansDrawContract::bank_cards(&mut state).unwrap(), outcome);
    assert_eq!((state.p1_busts, state.p2_busts), busts);
}

#[test]
fn test_prevent_self_play() {
    let r = DeadMansDrawContract::start_game(12345u32, p1(), p1(), vec![1u8; 32], vec![2u8; 32]);
    assert_eq!(r.err(), Some(Error::InvalidMove));
}

#[test]
fn test_phase_validation() {
    let mut state = new_game();
    let mock_proof = vec![0xABu8; 64];
    let r = DeadMansDrawContract::draw_card(&mut state, 5u32, &mock_proof, false, 0b0001u32);
    assert_eq!(r, Err(Error::NotInPhase));
}

#[test]
fn draw_errors_leave_the_state_alone() {
    let env = Env::default();
    let mut state = playing_game(&env);
    assert_eq!(DeadMansDrawContract::draw_card(&mut state, 5u32, &vec![], false, 1u32), Err(Error::InvalidProof));
    assert_eq!(DeadMansDrawContract::draw_card(&mut state, 40u32, &vec![1u8], false, 1u32), Err(Error::InvalidCard));
    assert_eq!(state.turn_score, 0);
    assert_eq!(state.p1_cards_drawn + state.p2_cards_drawn, 0);
}

#[test]
fn card_id_formula_holds_past_the_deck() {
    let card = Card { suit: 7, rank: 3 };
    assert_eq!(card.to_id(), 72);
}
