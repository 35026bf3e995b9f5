use nattty::engine::Context;
use nattty::engine::FilterMapFn;
use nattty::engine::MapFn;
use nattty::engine::SnapshotFn;
use nattty::engine::Value;
use nattty::Mark;

#[test]
fn a_transaction_maps_and_filters_in_one_instant() {
    let mut ctx = Context::new();
    let sink = ctx.new_stream_sink();
    let parsed = ctx.map(sink, MapFn::ParseLine);
    let numbers = ctx.filter_map(parsed, FilterMapFn::ParsedNum);
    let failures = ctx.filter_map(parsed, FilterMapFn::ParseFailure);

    let occs = ctx.send(sink, Value::Text(String::from("42")));
    assert!(matches!(occs[parsed.id], Some(Value::NumOpt(Some(42)))));
    assert!(matches!(occs[numbers.id], Some(Value::Num(42))));
    assert!(matches!(occs[failures.id], None));

    let occs = ctx.send(sink, Value::Text(String::from("nope")));
    assert!(matches!(occs[parsed.id], Some(Value::NumOpt(None))));
    assert!(matches!(occs[numbers.id], None));
    assert!(matches!(occs[failures.id], Some(Value::ErrVal(_))));
}

#[test]
fn a_cyclic_cell_swaps_against_its_own_prior_value() {
    // The turn-alternator shape: a cell whose next value is the swap of
    // its own value immediately before the occurrence.
    let mut ctx = Context::new();
    let sink = ctx.new_stream_sink();
    let turn_loop = ctx.new_cell_loop();
    let next_turn = ctx.snapshot(sink, turn_loop, SnapshotFn::SwapTurn);
    let turn = ctx.hold(next_turn, Value::MarkVal(Mark::X));
    ctx.bind_cell_loop(turn_loop, turn);

    assert!(matches!(ctx.sample(turn), Value::MarkVal(Mark::X)));
    // During the transaction the snapshot saw the pre-transaction value.
    let occs = ctx.send(sink, Value::Unit);
    assert!(matches!(occs[next_turn.id], Some(Value::MarkVal(Mark::O))));
    assert!(matches!(ctx.sample(turn), Value::MarkVal(Mark::O)));
    // The placeholder and its binding are observationally identical.
    assert!(matches!(ctx.sample(turn_loop), Value::MarkVal(Mark::O)));

    ctx.send(sink, Value::Unit);
    assert!(matches!(ctx.sample(turn), Value::MarkVal(Mark::X)));
}

#[test]
fn a_hold_keeps_its_seed_until_an_occurrence_arrives() {
    let mut ctx = Context::new();
    let sink = ctx.new_stream_sink();
    let other_sink = ctx.new_stream_sink();
    let held = ctx.hold(sink, Value::Num(7));

    assert!(matches!(ctx.sample(held), Value::Num(7)));
    // A stimulus on another sink leaves the hold untouched.
    ctx.send(other_sink, Value::Num(1));
    assert!(matches!(ctx.sample(held), Value::Num(7)));
    ctx.send(sink, Value::Num(9));
    assert!(matches!(ctx.sample(held), Value::Num(9)));
}
