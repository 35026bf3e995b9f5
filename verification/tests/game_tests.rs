use nattty::board::Mark;
use nattty::input::Error;
use nattty::network::GameNetwork;
use nattty::AppState;

fn playing_network() -> GameNetwork {
    let mut net = GameNetwork::new();
    assert!(net.send_boot());
    net.send_line(String::from("Alice"));
    net.send_line(String::from("Bob"));
    assert!(net.app_state().is_playing());
    net
}

#[test]
fn registration_registers_exactly_once() {
    let mut net = GameNetwork::new();
    assert!(matches!(net.app_state(), AppState::RegisterPlayer));
    assert!(net.send_boot());

    let first = net.send_line(String::from("Alice"));
    assert!(first.registered.is_none());
    assert!(!first.start_game);
    assert!(first.prompt);
    assert!(first.moved.is_none());
    assert!(first.error.is_none());
    assert!(matches!(net.app_state(), AppState::RegisterPlayer));
    // A boot mid-registration must not re-prompt: a name is pending.
    assert!(!net.send_boot());

    let second = net.send_line(String::from("Bob"));
    assert!(second.start_game);
    assert!(!second.prompt);
    let pair = second.registered.expect("two names registered");
    assert_eq!(pair.x.name, "Alice");
    assert_eq!(pair.o.name, "Bob");
    assert!(matches!(net.app_state(), AppState::Playing));

    // More boot triggers never leave the playing state.
    net.send_boot();
    net.send_boot();
    assert!(matches!(net.app_state(), AppState::Playing));
    let players = net.players();
    assert_eq!(players.x.name, "Alice");
    assert_eq!(players.o.name, "Bob");
}

#[test]
fn row_win_scenario() {
    // Moves 1, 4, 2, 5, 3 fill row 0-1-2 with X while O takes 3 and 4.
    let mut net = playing_network();
    let expected = [
        ("1", (0, Mark::X)),
        ("4", (3, Mark::O)),
        ("2", (1, Mark::X)),
        ("5", (4, Mark::O)),
        ("3", (2, Mark::X)),
    ];
    for (k, (line, mv)) in expected.iter().enumerate() {
        let outcome = net.send_line(String::from(*line));
        assert_eq!(outcome.error, None);
        assert_eq!(outcome.moved, Some(*mv));
        if k < 4 {
            assert_eq!(outcome.winner, None);
        } else {
            assert_eq!(outcome.winner, Some(Mark::X));
        }
    }
    let board = net.board();
    assert_eq!(board.get(0), Some(Mark::X));
    assert_eq!(board.get(1), Some(Mark::X));
    assert_eq!(board.get(2), Some(Mark::X));
    assert_eq!(board.get(3), Some(Mark::O));
    assert_eq!(board.get(4), Some(Mark::O));
    assert_eq!(board.get_winner(), Some(Mark::X));
}

#[test]
fn out_of_range_not_numeric_and_taken_square() {
    let mut net = playing_network();

    let ten = net.send_line(String::from("10"));
    assert_eq!(ten.error, Some(Error::InvalidIndex(10)));
    assert!(ten.moved.is_none());

    let abc = net.send_line(String::from("abc"));
    assert_eq!(abc.error, Some(Error::InvalidInteger));
    assert!(abc.moved.is_none());

    let first = net.send_line(String::from("1"));
    assert_eq!(first.moved, Some((0, Mark::X)));
    assert_eq!(first.error, None);

    let again = net.send_line(String::from("1"));
    assert_eq!(again.error, Some(Error::InvalidMove(0)));
    assert!(again.moved.is_none());
}

#[test]
fn rejected_lines_change_nothing_however_often() {
    let mut net = playing_network();
    net.send_line(String::from("5"));
    let before: Vec<Option<Mark>> = (0..9).map(|i| net.board().get(i)).collect();
    let turn_before = net.turn();
    for _ in 0..5 {
        let outcome = net.send_line(String::from("27"));
        assert_eq!(outcome.error, Some(Error::InvalidIndex(27)));
        assert!(outcome.moved.is_none());
        assert!(outcome.winner.is_none());
    }
    let after: Vec<Option<Mark>> = (0..9).map(|i| net.board().get(i)).collect();
    assert_eq!(before, after);
    assert_eq!(turn_before, net.turn());
}

#[test]
fn turn_alternates_across_interleaved_errors() {
    let mut net = playing_network();
    assert_eq!(net.turn(), Mark::X);
    assert_eq!(net.send_line(String::from("9")).moved, Some((8, Mark::X)));
    assert_eq!(net.send_line(String::from("junk")).moved, None);
    assert_eq!(net.send_line(String::from("9")).moved, None);
    assert_eq!(net.send_line(String::from("0")).moved, None);
    assert_eq!(net.turn(), Mark::O);
    assert_eq!(net.send_line(String::from("8")).moved, Some((7, Mark::O)));
    assert_eq!(net.turn(), Mark::X);
    assert_eq!(net.send_line(String::from("7")).moved, Some((6, Mark::X)));
}

#[test]
fn zero_and_boundary_indices() {
    let mut net = playing_network();
    assert_eq!(
        net.send_line(String::from("0")).error,
        Some(Error::InvalidIndex(0))
    );
    assert_eq!(net.send_line(String::from("1")).moved, Some((0, Mark::X)));
    assert_eq!(net.send_line(String::from("9")).moved, Some((8, Mark::O)));
}

#[test]
fn integer_parsing_follows_the_machine() {
    let mut net = playing_network();
    // A leading plus sign is how unsigned integers parse.
    assert_eq!(net.send_line(String::from("+5")).moved, Some((4, Mark::X)));
    // The empty line, a bare sign, spaces and overflow all fail to parse.
    for line in ["", "+", " 5", "5 ", "12345678901234567890123456789"] {
        let outcome = net.send_line(String::from(line));
        assert_eq!(outcome.error, Some(Error::InvalidInteger), "line {line:?}");
    }
}

#[test]
fn registration_lines_never_touch_the_board() {
    let mut net = GameNetwork::new();
    let outcome = net.send_line(String::from("10"));
    // While registering, "10" is a name, not a move: no error, no move.
    assert_eq!(outcome.error, None);
    assert_eq!(outcome.moved, None);
    for i in 0..9 {
        assert_eq!(net.board().get(i), None);
    }
    assert_eq!(net.turn(), Mark::X);
}

#[test]
fn moves_after_a_win_are_still_accepted() {
    // The engine does not gate input once a winner is reported.
    let mut net = playing_network();
    for line in ["1", "4", "2", "5", "3"] {
        net.send_line(String::from(line));
    }
    let after = net.send_line(String::from("9"));
    assert_eq!(after.error, None);
    assert_eq!(after.moved, Some((8, Mark::O)));
}
