use chihiro_game::Address;
use chihiro_game::ChihiroGame;
use chihiro_game::Error;
use chihiro_game::GameHub;
use chihiro_game::UltraHonkVerifier;

/// Records every call the game makes to the session registry.
struct StubHub {
    started: Vec<(Vec<u8>, u32, Vec<u8>, Vec<u8>, i128, i128)>,
    ended: Vec<(u32, bool)>,
}

impl StubHub {
    fn new() -> StubHub {
        StubHub { started: Vec::new(), ended: Vec::new() }
    }
}

impl GameHub for StubHub {
    fn start_game(
        &mut self,
        game_id: &Address,
        session_id: u32,
        player1: &Address,
        player2: &Address,
        player1_points: i128,
        player2_points: i128,
    ) {
        self.started.push((
            game_id.as_bytes().clone(),
            session_id,
            player1.as_bytes().clone(),
            player2.as_bytes().clone(),
            player1_points,
            player2_points,
        ));
    }

    fn end_game(&mut self, session_id: u32, challenger_won: bool) {
        self.ended.push((session_id, challenger_won));
    }
}

/// Returns a fixed answer and counts how often it was consulted.
struct StubVerifier {
    answer: bool,
    calls: u32,
}

impl StubVerifier {
    fn new(answer: bool) -> StubVerifier {
        StubVerifier { answer, calls: 0 }
    }
}

impl UltraHonkVerifier for StubVerifier {
    fn verify(&mut self, _proof: &Vec<u8>, _public_inputs: &Vec<Vec<u8>>, _vk: &Vec<u8>) -> bool {
        self.calls += 1;
        self.answer
    }
}

fn addr(b: u8) -> Address {
    Address::from_bytes(vec![b])
}

fn commit(b: u8) -> Vec<u8> {
    vec![b; 32]
}

/// A freshly initialized game: admin 1, challenger 2, commitment 7s,
/// hub 3, verifier 4, vk [9, 9], own address 5, ledger sequence 42.
fn initialized_game() -> (ChihiroGame, StubHub) {
    let mut g = ChihiroGame::new();
    let mut hub = StubHub::new();
    let r = g.initialize(
        addr(1),
        addr(2),
        commit(7),
        addr(3),
        addr(4),
        vec![9, 9],
        &addr(5),
        42,
        &mut hub,
    );
    assert_eq!(r, Ok(()));
    (g, hub)
}

#[test]
fn initial_status_is_empty() {
    let g = ChihiroGame::new();
    let (game_id, started, ended) = g.get_game_status();
    assert_eq!(game_id, 0);
    assert!(!started);
    assert!(!ended);
}

#[test]
fn uninitialized_reads_fail_not_initialized() {
    let g = ChihiroGame::new();
    assert_eq!(g.get_name_commit(), Err(Error::NotInitialized));
    assert_eq!(g.get_players(), Err(Error::NotInitialized));
}

#[test]
fn initialize_stores_the_record() {
    let (g, hub) = initialized_game();
    assert_eq!(g.get_game_status(), (42, true, false));
    assert_eq!(g.get_name_commit(), Ok(commit(7)));
    assert_eq!(g.get_players(), Ok((addr(1), addr(2))));
    assert_eq!(hub.started, vec![(vec![5], 42, vec![1], vec![2], 0i128, 0i128)]);
    assert!(hub.ended.is_empty());
}

#[test]
fn second_initialize_fails_and_changes_nothing() {
    let (mut g, mut hub) = initialized_game();
    let r = g.initialize(
        addr(8),
        addr(9),
        commit(1),
        addr(3),
        addr(4),
        vec![0],
        &addr(5),
        77,
        &mut hub,
    );
    assert_eq!(r, Err(Error::AlreadyInitialized));
    assert_eq!(g.get_game_status(), (42, true, false));
    assert_eq!(g.get_name_commit(), Ok(commit(7)));
    assert_eq!(g.get_players(), Ok((addr(1), addr(2))));
    assert_eq!(hub.started.len(), 1);
}

#[test]
fn recover_before_initialize_fails() {
    let mut g = ChihiroGame::new();
    let mut hub = StubHub::new();
    let mut v = StubVerifier::new(true);
    let r = g.recover_name(&addr(2), &vec![1, 2, 3], &vec![commit(7)], &mut v, &mut hub);
    assert_eq!(r, Err(Error::NotInitialized));
    assert_eq!(v.calls, 0);
    assert!(hub.ended.is_empty());
}

#[test]
fn recover_by_wrong_caller_fails_not_player2() {
    let (mut g, mut hub) = initialized_game();
    let mut v = StubVerifier::new(true);
    let r = g.recover_name(&addr(6), &vec![1, 2, 3], &vec![commit(7)], &mut v, &mut hub);
    assert_eq!(r, Err(Error::NotPlayer2));
    assert_eq!(v.calls, 0);
    assert_eq!(g.get_game_status(), (42, true, false));
    assert!(hub.ended.is_empty());
}

#[test]
fn recover_with_wrong_value_fails_wrong_public_input() {
    let (mut g, mut hub) = initialized_game();
    let mut v = StubVerifier::new(true);
    let r = g.recover_name(&addr(2), &vec![1, 2, 3], &vec![commit(8)], &mut v, &mut hub);
    assert_eq!(r, Err(Error::WrongPublicInput));
    assert_eq!(v.calls, 0);
    assert_eq!(g.get_game_status(), (42, true, false));
}

#[test]
fn recover_with_wrong_count_fails_wrong_public_input() {
    let (mut g, mut hub) = initialized_game();
    let mut v = StubVerifier::new(true);
    let none: Vec<Vec<u8>> = Vec::new();
    let r = g.recover_name(&addr(2), &vec![1, 2, 3], &none, &mut v, &mut hub);
    assert_eq!(r, Err(Error::WrongPublicInput));
    let r = g.recover_name(&addr(2), &vec![1, 2, 3], &vec![commit(7), commit(7)], &mut v, &mut hub);
    assert_eq!(r, Err(Error::WrongPublicInput));
    assert_eq!(v.calls, 0);
    assert_eq!(g.get_game_status(), (42, true, false));
}

#[test]
fn recover_with_rejected_proof_fails_proof_invalid() {
    let (mut g, mut hub) = initialized_game();
    let mut v = StubVerifier::new(false);
    let r = g.recover_name(&addr(2), &vec![1, 2, 3], &vec![commit(7)], &mut v, &mut hub);
    assert_eq!(r, Err(Error::ProofInvalid));
    assert_eq!(v.calls, 1);
    assert_eq!(g.get_game_status(), (42, true, false));
    assert!(hub.ended.is_empty());
}

#[test]
fn recover_happy_path_wins_once() {
    let (mut g, mut hub) = initialized_game();
    let mut v = StubVerifier::new(true);
    let r = g.recover_name(&addr(2), &vec![1, 2, 3], &vec![commit(7)], &mut v, &mut hub);
    assert_eq!(r, Ok(true));
    assert_eq!(v.calls, 1);
    assert_eq!(g.get_game_status(), (42, true, true));
    assert_eq!(hub.ended, vec![(42, true)]);

    let r = g.recover_name(&addr(2), &vec![1, 2, 3], &vec![commit(7)], &mut v, &mut hub);
    assert_eq!(r, Err(Error::AlreadyEnded));
    let r = g.recover_name(&addr(6), &vec![], &vec![commit(8)], &mut v, &mut hub);
    assert_eq!(r, Err(Error::AlreadyEnded));
    assert_eq!(v.calls, 1);
    assert_eq!(hub.ended.len(), 1);
}

#[test]
fn recover_with_answer_matches_the_transition() {
    let (mut g, _hub) = initialized_game();
    let r = g.recover_name_with_answer(&addr(2), &vec![commit(7)], false);
    assert_eq!(r, Err(Error::ProofInvalid));
    assert_eq!(g.get_game_status(), (42, true, false));
    let r = g.recover_name_with_answer(&addr(2), &vec![commit(7)], true);
    assert_eq!(r, Ok(true));
    assert_eq!(g.get_game_status(), (42, true, true));
}

#[test]
fn caller_guard_order_is_fixed() {
    let g = ChihiroGame::new();
    assert_eq!(g.check_recover_caller(&addr(2)), Err(Error::NotInitialized));

    let (mut g, _hub) = initialized_game();
    assert_eq!(g.check_recover_caller(&addr(6)), Err(Error::NotPlayer2));
    assert_eq!(g.check_recover_caller(&addr(2)), Ok(()));

    let r = g.recover_name_with_answer(&addr(2), &vec![commit(7)], true);
    assert_eq!(r, Ok(true));
    assert_eq!(g.check_recover_caller(&addr(2)), Err(Error::AlreadyEnded));
    assert_eq!(g.check_recover_caller(&addr(6)), Err(Error::AlreadyEnded));
}

#[test]
fn reads_are_idempotent_and_reflect_writes() {
    let mut g = ChihiroGame::new();
    assert_eq!(g.get_game_status(), g.get_game_status());

    let mut hub = StubHub::new();
    let r = g.initialize(
        addr(1),
        addr(2),
        commit(7),
        addr(3),
        addr(4),
        vec![9, 9],
        &addr(5),
        42,
        &mut hub,
    );
    assert_eq!(r, Ok(()));
    assert_eq!(g.get_game_status(), (42, true, false));
    assert_eq!(g.get_game_status(), (42, true, false));
    assert_eq!(g.get_name_commit(), g.get_name_commit());
    assert_eq!(g.get_players(), g.get_players());

    let mut v = StubVerifier::new(true);
    let r = g.recover_name(&addr(2), &vec![1], &vec![commit(7)], &mut v, &mut hub);
    assert_eq!(r, Ok(true));
    assert_eq!(g.get_game_status(), (42, true, true));
    assert_eq!(g.get_game_status(), (42, true, true));
    assert_eq!(g.get_name_commit(), Ok(commit(7)));
    assert_eq!(g.get_players(), Ok((addr(1), addr(2))));
}

#[test]
fn rehydrated_record_behaves_like_the_stored_one() {
    let g = ChihiroGame::from_record(
        addr(1),
        addr(2),
        commit(7),
        addr(3),
        addr(4),
        vec![9, 9],
        42,
        false,
    );
    assert_eq!(g.get_game_status(), (42, true, false));
    assert_eq!(g.get_name_commit(), Ok(commit(7)));
    assert_eq!(g.get_players(), Ok((addr(1), addr(2))));

    let mut ended = ChihiroGame::from_record(
        addr(1),
        addr(2),
        commit(7),
        addr(3),
        addr(4),
        vec![9, 9],
        42,
        true,
    );
    let mut hub = StubHub::new();
    let mut v = StubVerifier::new(true);
    let r = ended.recover_name(&addr(2), &vec![1], &vec![commit(7)], &mut v, &mut hub);
    assert_eq!(r, Err(Error::AlreadyEnded));
    assert_eq!(v.calls, 0);
}

#[test]
fn error_codes_are_stable() {
    assert_eq!(Error::AlreadyInitialized.code(), 1);
    assert_eq!(Error::NotInitialized.code(), 2);
    assert_eq!(Error::AlreadyEnded.code(), 3);
    assert_eq!(Error::WrongPublicInput.code(), 4);
    assert_eq!(Error::ProofInvalid.code(), 5);
    assert_eq!(Error::NotPlayer2.code(), 6);
}

#[test]
fn byte_helpers_compare_and_copy() {
    assert!(chihiro_game::bytes_eq(&vec![1, 2, 3], &vec![1, 2, 3]));
    assert!(!chihiro_game::bytes_eq(&vec![1, 2, 3], &vec![1, 2, 4]));
    assert!(!chihiro_game::bytes_eq(&vec![1, 2], &vec![1, 2, 3]));
    assert!(chihiro_game::bytes_eq(&Vec::new(), &Vec::new()));
    assert_eq!(chihiro_game::copy_bytes(&vec![4, 5]), vec![4, 5]);

    let a = addr(1);
    assert_eq!(a.duplicate(), a);
    assert_eq!(a.as_bytes(), &vec![1]);
    assert!(addr(1) == addr(1));
    assert!(addr(1) != addr(2));
}
