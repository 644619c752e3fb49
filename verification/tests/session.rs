use pebbles_game::{
    DifficultyLevel, GameState, PebblesAction, PebblesEvent, PebblesInit, Player, Rejection, Reply,
    Session,
};

fn block(head: [u8; 4]) -> [u8; 32] {
    let mut hash = [0x3cu8; 32];
    hash[..4].copy_from_slice(&head);
    hash
}

const HUMAN_FIRST: [u8; 4] = [0x10, 0xff, 0xff, 0xff];
const AUTOMATED_FIRST: [u8; 4] = [0x11, 0, 0, 0];

fn hard(pebbles_count: u32, max_pebbles_per_turn: u32) -> PebblesInit {
    PebblesInit { difficulty: DifficultyLevel::Hard, pebbles_count, max_pebbles_per_turn }
}

fn easy(pebbles_count: u32, max_pebbles_per_turn: u32) -> PebblesInit {
    PebblesInit { difficulty: DifficultyLevel::Easy, pebbles_count, max_pebbles_per_turn }
}

#[test]
fn session_starts_without_a_game() {
    let session = Session::new();
    assert!(!session.is_initialized());
    assert_eq!(session.state(), None);
}

#[test]
fn init_sets_up_the_game() {
    let mut session = Session::new();
    session.init(hard(15, 4), &block(HUMAN_FIRST), &block([0; 4]));
    assert!(session.is_initialized());
    assert_eq!(
        session.state(),
        Some(GameState {
            pebbles_count: 15,
            max_pebbles_per_turn: 4,
            pebbles_remaining: 15,
            difficulty: DifficultyLevel::Hard,
            first_player: Player::Human,
            winner: None,
        })
    );
}

#[test]
fn init_with_the_opponent_first_makes_the_opening_move() {
    let mut session = Session::new();
    session.init(hard(15, 4), &block(AUTOMATED_FIRST), &block([9; 4]));
    let state = session.state().unwrap();
    assert_eq!(state.first_player, Player::Automated);
    assert_eq!(state.pebbles_remaining, 14);
    assert_eq!(state.winner, None);
}

#[test]
fn init_reads_the_easy_take_from_the_seed() {
    let mut session = Session::new();
    // the seed spells 0x0102 = 258, and 258 mod 4 + 1 = 3
    session.init(easy(15, 4), &block(AUTOMATED_FIRST), &block([0x02, 0x01, 0, 0]));
    assert_eq!(session.state().unwrap().pebbles_remaining, 12);
    // the coin's own bytes are not the seed
    let mut session = Session::new();
    session.init(easy(15, 4), &block([0x11, 0, 0, 0]), &block([0x03, 0, 0, 0]));
    assert_eq!(session.state().unwrap().pebbles_remaining, 11);
}

#[test]
fn init_replaces_an_earlier_game() {
    let mut session = Session::new();
    session.init(hard(15, 4), &block(HUMAN_FIRST), &block([0; 4]));
    session.handle(PebblesAction::GiveUp, &block(HUMAN_FIRST), &block([0; 4]));
    session.init(easy(8, 3), &block(HUMAN_FIRST), &block([0; 4]));
    let state = session.state().unwrap();
    assert_eq!(state.pebbles_count, 8);
    assert_eq!(state.pebbles_remaining, 8);
    assert_eq!(state.winner, None);
}

#[test]
fn state_is_a_copy_and_changes_nothing() {
    let mut session = Session::new();
    session.init(hard(15, 4), &block(HUMAN_FIRST), &block([0; 4]));
    let first = session.state();
    let mut copy = first.unwrap();
    copy.pebbles_remaining = 1;
    assert_eq!(session.state(), first);
    assert_eq!(session.state().unwrap().pebbles_remaining, 15);
}

#[test]
fn session_plays_a_hard_game_to_its_end() {
    let mut session = Session::new();
    session.init(hard(10, 4), &block(HUMAN_FIRST), &block([0; 4]));
    let coin = block(AUTOMATED_FIRST);
    let seed = block([7, 7, 7, 7]);
    assert_eq!(
        session.handle(PebblesAction::Turn(5), &coin, &seed),
        Some(Reply::Rejected(Rejection::ExceedsTurnMaximum))
    );
    assert_eq!(session.state().unwrap().pebbles_remaining, 10);
    assert_eq!(
        session.handle(PebblesAction::Turn(3), &coin, &seed),
        Some(Reply::Event(PebblesEvent::CounterTurn(2)))
    );
    assert_eq!(session.state().unwrap().pebbles_remaining, 5);
    assert_eq!(
        session.handle(PebblesAction::Turn(4), &coin, &seed),
        Some(Reply::Event(PebblesEvent::Won(Player::Automated)))
    );
    let end = session.state().unwrap();
    assert_eq!(end.pebbles_remaining, 0);
    assert_eq!(end.winner, Some(Player::Automated));
    assert_eq!(end.first_player, Player::Human);
    assert_eq!(session.handle(PebblesAction::Turn(1), &coin, &seed), None);
    assert_eq!(session.handle(PebblesAction::GiveUp, &coin, &seed), None);
    assert_eq!(session.state(), Some(end));
}

#[test]
fn session_reads_the_easy_answer_from_the_seed() {
    let mut session = Session::new();
    session.init(easy(20, 5), &block(HUMAN_FIRST), &block([0; 4]));
    // 0x01000004 mod 5 = 0, so the answer is one pebble
    let reply = session.handle(
        PebblesAction::Turn(2),
        &block(HUMAN_FIRST),
        &block([0x04, 0x00, 0x00, 0x01]),
    );
    assert_eq!(0x0100_0004u32 % 5, 0);
    assert_eq!(reply, Some(Reply::Event(PebblesEvent::CounterTurn(1))));
    assert_eq!(session.state().unwrap().pebbles_remaining, 17);
    let reply = session.handle(PebblesAction::Turn(2), &block(HUMAN_FIRST), &block([3, 0, 0, 0]));
    assert_eq!(reply, Some(Reply::Event(PebblesEvent::CounterTurn(4))));
    assert_eq!(session.state().unwrap().pebbles_remaining, 11);
}

#[test]
fn session_restart_draws_the_first_player_from_the_coin() {
    let mut session = Session::new();
    session.init(hard(10, 4), &block(HUMAN_FIRST), &block([0; 4]));
    session.handle(PebblesAction::GiveUp, &block(HUMAN_FIRST), &block([0; 4]));
    assert_eq!(session.state().unwrap().winner, Some(Player::Automated));

    let restart = PebblesAction::Restart {
        difficulty: DifficultyLevel::Easy,
        pebbles_count: 30,
        max_pebbles_per_turn: 6,
    };
    let reply = session.handle(restart, &block(AUTOMATED_FIRST), &block([8, 0, 0, 0]));
    assert_eq!(reply, Some(Reply::OpeningMove(3)));
    assert_eq!(
        session.state(),
        Some(GameState {
            pebbles_count: 30,
            max_pebbles_per_turn: 6,
            pebbles_remaining: 30,
            difficulty: DifficultyLevel::Easy,
            first_player: Player::Automated,
            winner: None,
        })
    );

    let reply = session.handle(restart, &block(HUMAN_FIRST), &block([8, 0, 0, 0]));
    assert_eq!(reply, None);
    let state = session.state().unwrap();
    assert_eq!(state.first_player, Player::Human);
    assert_eq!(state.pebbles_remaining, 30);
    assert_eq!(state.winner, None);
}

#[test]
fn session_forfeit_right_after_init() {
    for coin in [HUMAN_FIRST, AUTOMATED_FIRST] {
        let mut session = Session::new();
        session.init(hard(15, 4), &block(coin), &block([0; 4]));
        let before = session.state().unwrap();
        let reply = session.handle(PebblesAction::GiveUp, &block(coin), &block([0; 4]));
        assert_eq!(reply, Some(Reply::Event(PebblesEvent::Won(Player::Automated))));
        let after = session.state().unwrap();
        assert_eq!(after.winner, Some(Player::Automated));
        assert_eq!(after.pebbles_remaining, before.pebbles_remaining);
    }
}
