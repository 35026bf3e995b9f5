// The game graph wired directly onto a raw-text sink, with no game
// sequence controller in front: every line reaches the validator.

use nattty::engine::Context;
use nattty::engine::StreamRef;
use nattty::engine::Value;
use nattty::input::Error;
use nattty::network::TicTacToe;
use nattty::Mark;

fn standalone() -> (Context, StreamRef, TicTacToe) {
    let mut ctx = Context::new();
    let kb_input = ctx.new_stream_sink();
    let game = TicTacToe::new(&mut ctx, kb_input);
    (ctx, kb_input, game)
}

fn send(ctx: &mut Context, sink: StreamRef, line: &str) -> Vec<Option<Value>> {
    ctx.send(sink, Value::Text(String::from(line)))
}

#[test]
fn ungated_game_accepts_moves_at_once() {
    let (mut ctx, kb, game) = standalone();
    assert!(matches!(ctx.sample(game.turn), Value::MarkVal(Mark::X)));

    let occs = send(&mut ctx, kb, "5");
    assert!(matches!(occs[game.moves.id], Some(Value::MoveVal(4, Mark::X))));
    assert!(matches!(occs[game.error.id], None));
    assert!(matches!(occs[game.winner.id], None));
    assert!(matches!(ctx.sample(game.turn), Value::MarkVal(Mark::O)));

    match ctx.sample(game.board) {
        Value::BoardVal(board) => {
            assert_eq!(board.get(4), Some(Mark::X));
            assert_eq!(board.get(0), None);
        },
        other => panic!("board cell holds {other:?}"),
    }
}

#[test]
fn ungated_game_rejects_ten_at_any_time() {
    let (mut ctx, kb, game) = standalone();
    let occs = send(&mut ctx, kb, "10");
    assert!(matches!(
        occs[game.error.id],
        Some(Value::ErrVal(Error::InvalidIndex(10)))
    ));
    assert!(matches!(occs[game.moves.id], None));

    let occs = send(&mut ctx, kb, "abc");
    assert!(matches!(
        occs[game.error.id],
        Some(Value::ErrVal(Error::InvalidInteger))
    ));

    // The rejected lines left the board untouched; a move still works.
    let occs = send(&mut ctx, kb, "1");
    assert!(matches!(occs[game.moves.id], Some(Value::MoveVal(0, Mark::X))));
}

#[test]
fn ungated_game_reports_a_column_winner() {
    let (mut ctx, kb, game) = standalone();
    // X takes column 1-4-7 (squares 0, 3, 6) while O takes 2 and 5.
    for line in ["1", "2", "4", "5"] {
        let occs = send(&mut ctx, kb, line);
        assert!(matches!(occs[game.winner.id], None));
    }
    let occs = send(&mut ctx, kb, "7");
    assert!(matches!(
        occs[game.winner.id],
        Some(Value::MarkVal(Mark::X))
    ));
}
