//! The game's signal graph: the input validator, the turn alternator, the
//! board accumulator and the game sequence controller, wired on the
//! reactive [`Context`], plus [`GameNetwork`], the composed graph whose one
//! transaction is proved to behave like a pure transition function.

use vstd::prelude::*;

use crate::board::Board;
use crate::board::Mark;
use crate::board::empty_board;
use crate::board::winner_of;
use crate::engine::cell_value;
use crate::engine::committed_value;
use crate::engine::eval_cell_fn;
use crate::engine::occurrence;
use crate::engine::CellOp;
use crate::engine::CellFn;
use crate::engine::CellRef;
use crate::engine::Context;
use crate::engine::FilterFn;
use crate::engine::FilterMapFn;
use crate::engine::MapFn;
use crate::engine::OpKind;
use crate::engine::Snapshot3Fn;
use crate::engine::SnapshotFilterFn;
use crate::engine::SnapshotFn;
use crate::engine::StreamRef;
use crate::engine::Value;
use crate::input::Error;
use crate::input::parse_usize;
use crate::input::validate_spec;
use crate::AppState;
use crate::Players;

verus! {

/// The streams the input validator produces: validated 0-based move
/// indices, and typed errors. Exactly one of the two fires per input line.
struct IndexValidator {
    valid_move_stream: StreamRef,
    error_stream: StreamRef,
}

impl IndexValidator {
    /// Wires the validator: parse the line, check the range `1..=9`,
    /// convert to a 0-based index, and check the sampled board for an
    /// occupied square. The board cell may be a still-unbound placeholder,
    /// which is how the validator takes part in the board cycle.
    fn new(ctx: &mut Context, input_stream: StreamRef, board_cell: CellRef) -> (validator:
        IndexValidator)
        requires
            old(ctx).wf(),
            input_stream.id < old(ctx).ops_view().len(),
            board_cell.id < old(ctx).cells_view().len(),
        ensures
            final(ctx).wf(),
            final(ctx).cells_view() == old(ctx).cells_view(),
            final(ctx).vals_view() == old(ctx).vals_view(),
            final(ctx).ops_view().len() == old(ctx).ops_view().len() + 12,
            forall|i: int| 0 <= i < old(ctx).ops_view().len() ==> final(ctx).ops_view()[i]
                == old(ctx).ops_view()[i],
            ({
                let b = old(ctx).ops_view().len() as int;
                let ops = final(ctx).ops_view();
                &&& ops[b + 0] == OpKind::Mapped(input_stream.id, MapFn::ParseLine)
                &&& ops[b + 1] == OpKind::FilterMap((b + 0) as usize, FilterMapFn::ParsedNum)
                &&& ops[b + 2] == OpKind::FilterMap((b + 0) as usize, FilterMapFn::ParseFailure)
                &&& ops[b + 3] == OpKind::Filter((b + 1) as usize, FilterFn::InRange)
                &&& ops[b + 4] == OpKind::Mapped((b + 3) as usize, MapFn::DecIndex)
                &&& ops[b + 5] == OpKind::Filter((b + 1) as usize, FilterFn::OutOfRange)
                &&& ops[b + 6] == OpKind::Mapped((b + 5) as usize, MapFn::ToInvalidIndex)
                &&& ops[b + 7] == OpKind::SnapshotFilter(
                    (b + 4) as usize,
                    board_cell.id,
                    SnapshotFilterFn::SquareFree,
                )
                &&& ops[b + 8] == OpKind::SnapshotFilter(
                    (b + 4) as usize,
                    board_cell.id,
                    SnapshotFilterFn::SquareTaken,
                )
                &&& ops[b + 9] == OpKind::Mapped((b + 8) as usize, MapFn::ToInvalidMove)
                &&& ops[b + 10] == OpKind::Merge((b + 2) as usize, (b + 6) as usize)
                &&& ops[b + 11] == OpKind::Merge((b + 10) as usize, (b + 9) as usize)
                &&& validator.valid_move_stream.id == b + 7
                &&& validator.error_stream.id == b + 11
            }),
    {
        let parsed = ctx.map(input_stream, MapFn::ParseLine);
        let index_stream = ctx.filter_map(parsed, FilterMapFn::ParsedNum);
        let parse_err_stream = ctx.filter_map(parsed, FilterMapFn::ParseFailure);
        let in_range = ctx.filter(index_stream, FilterFn::InRange);
        let valid_index_stream = ctx.map(in_range, MapFn::DecIndex);
        let out_of_range = ctx.filter(index_stream, FilterFn::OutOfRange);
        let invalid_index_err = ctx.map(out_of_range, MapFn::ToInvalidIndex);
        let valid_move_stream = ctx.snapshot_filter(
            valid_index_stream,
            board_cell,
            SnapshotFilterFn::SquareFree,
        );
        let invalid_move_stream = ctx.snapshot_filter(
            valid_index_stream,
            board_cell,
            SnapshotFilterFn::SquareTaken,
        );
        let invalid_move_err = ctx.map(invalid_move_stream, MapFn::ToInvalidMove);
        let first_errors = ctx.or_else(parse_err_stream, invalid_index_err);
        let error_stream = ctx.or_else(first_errors, invalid_move_err);
        IndexValidator { valid_move_stream, error_stream }
    }
}

/// Wires the turn alternator: a cyclic cell starting at `X` whose next
/// value, on each validated move, is the swap of its own value immediately
/// before that move.
fn mark_swapping(ctx: &mut Context, index_stream: StreamRef) -> (turn_cell: CellRef)
    requires
        old(ctx).wf(),
        index_stream.id < old(ctx).ops_view().len(),
    ensures
        final(ctx).wf(),
        final(ctx).ops_view().len() == old(ctx).ops_view().len() + 1,
        forall|i: int| 0 <= i < old(ctx).ops_view().len() ==> final(ctx).ops_view()[i] == old(
            ctx,
        ).ops_view()[i],
        final(ctx).cells_view().len() == old(ctx).cells_view().len() + 2,
        forall|i: int| 0 <= i < old(ctx).cells_view().len() ==> final(ctx).cells_view()[i] == old(
            ctx,
        ).cells_view()[i],
        final(ctx).vals_view().len() == old(ctx).vals_view().len() + 2,
        forall|i: int| 0 <= i < old(ctx).vals_view().len() ==> final(ctx).vals_view()[i] == old(
            ctx,
        ).vals_view()[i],
        ({
            let b = old(ctx).ops_view().len() as int;
            let d = old(ctx).cells_view().len() as int;
            &&& final(ctx).ops_view()[b + 0] == OpKind::Snapshot(
                index_stream.id,
                (d + 0) as usize,
                SnapshotFn::SwapTurn,
            )
            &&& final(ctx).cells_view()[d + 0] == CellOp::Forward(Some((d + 1) as usize))
            &&& final(ctx).cells_view()[d + 1] == CellOp::Hold((b + 0) as usize)
            &&& final(ctx).vals_view()[d + 1] == Value::MarkVal(Mark::X)
            &&& turn_cell.id == d + 1
        }),
{
    let turn_cell_loop = ctx.new_cell_loop();
    let next_turn = ctx.snapshot(index_stream, turn_cell_loop, SnapshotFn::SwapTurn);
    let turn_cell = ctx.hold(next_turn, Value::MarkVal(Mark::X));
    ctx.bind_cell_loop(turn_cell_loop, turn_cell);
    turn_cell
}

/// The full game graph of one match: the board cell, the turn cell, and
/// the streams of validated moves, winners and errors.
pub struct TicTacToe {
    /// The current board, updated by each validated move.
    pub board: CellRef,
    /// The mark whose turn it is, starting at `X`.
    pub turn: CellRef,
    /// Validated moves: 0-based square index and the mark that took it.
    pub moves: StreamRef,
    /// The winning mark, fired after the move that completes a triple.
    pub winner: StreamRef,
    /// Exactly one occurrence per rejected input line.
    pub error: StreamRef,
}

impl TicTacToe {
    /// Wires the whole game over the raw text stream `kb_input`: the
    /// validator reads the board cell through a forward reference, the
    /// turn alternator swaps on each validated move, and the board
    /// accumulator folds each (index, prior board, turn) triple into the
    /// next board value, closing the cycle.
    pub fn new(ctx: &mut Context, kb_input: StreamRef) -> (game: TicTacToe)
        requires
            old(ctx).wf(),
            kb_input.id < old(ctx).ops_view().len(),
        ensures
            final(ctx).wf(),
            final(ctx).ops_view().len() == old(ctx).ops_view().len() + 16,
            forall|i: int| 0 <= i < old(ctx).ops_view().len() ==> final(ctx).ops_view()[i]
                == old(ctx).ops_view()[i],
            final(ctx).cells_view().len() == old(ctx).cells_view().len() + 4,
            forall|i: int| 0 <= i < old(ctx).cells_view().len() ==> final(ctx).cells_view()[i]
                == old(ctx).cells_view()[i],
            final(ctx).vals_view().len() == old(ctx).vals_view().len() + 4,
            forall|i: int| 0 <= i < old(ctx).vals_view().len() ==> final(ctx).vals_view()[i]
                == old(ctx).vals_view()[i],
            ({
                let b = old(ctx).ops_view().len() as int;
                let d = old(ctx).cells_view().len() as int;
                let ops = final(ctx).ops_view();
                let cells = final(ctx).cells_view();
                let vals = final(ctx).vals_view();
                &&& ops[b + 0] == OpKind::Mapped(kb_input.id, MapFn::ParseLine)
                &&& ops[b + 1] == OpKind::FilterMap((b + 0) as usize, FilterMapFn::ParsedNum)
                &&& ops[b + 2] == OpKind::FilterMap((b + 0) as usize, FilterMapFn::ParseFailure)
                &&& ops[b + 3] == OpKind::Filter((b + 1) as usize, FilterFn::InRange)
                &&& ops[b + 4] == OpKind::Mapped((b + 3) as usize, MapFn::DecIndex)
                &&& ops[b + 5] == OpKind::Filter((b + 1) as usize, FilterFn::OutOfRange)
                &&& ops[b + 6] == OpKind::Mapped((b + 5) as usize, MapFn::ToInvalidIndex)
                &&& ops[b + 7] == OpKind::SnapshotFilter(
                    (b + 4) as usize,
                    (d + 0) as usize,
                    SnapshotFilterFn::SquareFree,
                )
                &&& ops[b + 8] == OpKind::SnapshotFilter(
                    (b + 4) as usize,
                    (d + 0) as usize,
                    SnapshotFilterFn::SquareTaken,
                )
                &&& ops[b + 9] == OpKind::Mapped((b + 8) as usize, MapFn::ToInvalidMove)
                &&& ops[b + 10] == OpKind::Merge((b + 2) as usize, (b + 6) as usize)
                &&& ops[b + 11] == OpKind::Merge((b + 10) as usize, (b + 9) as usize)
                &&& ops[b + 12] == OpKind::Snapshot(
                    (b + 7) as usize,
                    (d + 1) as usize,
                    SnapshotFn::SwapTurn,
                )
                &&& ops[b + 13] == OpKind::Snapshot(
                    (b + 7) as usize,
                    (d + 2) as usize,
                    SnapshotFn::PairWithTurn,
                )
                &&& ops[b + 14] == OpKind::Snapshot3(
                    (b + 7) as usize,
                    (d + 0) as usize,
                    (d + 2) as usize,
                    Snapshot3Fn::ApplyMove,
                )
                &&& ops[b + 15] == OpKind::FilterMap((b + 14) as usize, FilterMapFn::WinnerOf)
                &&& cells[d + 0] == CellOp::Forward(Some((d + 3) as usize))
                &&& cells[d + 1] == CellOp::Forward(Some((d + 2) as usize))
                &&& cells[d + 2] == CellOp::Hold((b + 12) as usize)
                &&& cells[d + 3] == CellOp::Hold((b + 14) as usize)
                &&& vals[d + 2] == Value::MarkVal(Mark::X)
                &&& vals[d + 3] matches Value::BoardVal(board) && board@ == empty_board()
                &&& game.board.id == d + 3
                &&& game.turn.id == d + 2
                &&& game.moves.id == b + 13
                &&& game.winner.id == b + 15
                &&& game.error.id == b + 11
            }),
    {
        let board_cell_loop = ctx.new_cell_loop();
        let ghost cells_after_loop = ctx.cells_view();

        let IndexValidator { valid_move_stream, error_stream } = IndexValidator::new(
            ctx,
            kb_input,
            board_cell_loop,
        );

        let turn_cell = mark_swapping(ctx, valid_move_stream);
        proof {
            assert(cells_after_loop[board_cell_loop.id as int] == CellOp::Forward(None::<usize>));
            assert(ctx.cells_view()[board_cell_loop.id as int] == CellOp::Forward(None::<usize>));
        }

        let index_mark_stream = ctx.snapshot(valid_move_stream, turn_cell, SnapshotFn::PairWithTurn);

        let board_stream = ctx.snapshot3(
            valid_move_stream,
            board_cell_loop,
            turn_cell,
            Snapshot3Fn::ApplyMove,
        );
        let board_cell = ctx.hold(board_stream, Value::BoardVal(Board::new()));
        ctx.bind_cell_loop(board_cell_loop, board_cell);

        let winner_stream = ctx.filter_map(board_stream, FilterMapFn::WinnerOf);

        TicTacToe {
            board: board_cell,
            turn: turn_cell,
            moves: index_mark_stream,
            winner: winner_stream,
            error: error_stream,
        }
    }
}

/// The game sequence controller: routes raw text to "register a player
/// name" until two names are in, then opens play.
pub struct SequenceOfGames {
    /// The current phase; `RegisterPlayer` until registration completes.
    pub app_state: CellRef,
    /// The registered pair, both names empty until registration completes.
    pub players: CellRef,
    /// Fires, without payload, whenever the next player name is wanted.
    pub prompt_player_name: StreamRef,
    /// Fires, without payload, once both names are registered.
    pub start_game: StreamRef,
}

impl SequenceOfGames {
    /// Wires the controller: raw input is gated into registration while
    /// not yet playing; the first name is stashed, the second completes
    /// the pair, fires `start_game`, and flips the app state to `Playing`,
    /// closing the app-state cycle through a forward reference.
    pub fn new(ctx: &mut Context, new_matchup: StreamRef, kb_input: StreamRef) -> (controller:
        SequenceOfGames)
        requires
            old(ctx).wf(),
            new_matchup.id < old(ctx).ops_view().len(),
            kb_input.id < old(ctx).ops_view().len(),
        ensures
            final(ctx).wf(),
            final(ctx).ops_view().len() == old(ctx).ops_view().len() + 9,
            forall|i: int| 0 <= i < old(ctx).ops_view().len() ==> final(ctx).ops_view()[i]
                == old(ctx).ops_view()[i],
            final(ctx).cells_view().len() == old(ctx).cells_view().len() + 6,
            forall|i: int| 0 <= i < old(ctx).cells_view().len() ==> final(ctx).cells_view()[i]
                == old(ctx).cells_view()[i],
            final(ctx).vals_view().len() == old(ctx).vals_view().len() + 6,
            forall|i: int| 0 <= i < old(ctx).vals_view().len() ==> final(ctx).vals_view()[i]
                == old(ctx).vals_view()[i],
            ({
                let b = old(ctx).ops_view().len() as int;
                let d = old(ctx).cells_view().len() as int;
                let ops = final(ctx).ops_view();
                let cells = final(ctx).cells_view();
                let vals = final(ctx).vals_view();
                &&& ops[b + 0] == OpKind::Gate(kb_input.id, (d + 1) as usize)
                &&& ops[b + 1] == OpKind::Snapshot(
                    (b + 0) as usize,
                    (d + 2) as usize,
                    SnapshotFn::RegStep,
                )
                &&& ops[b + 2] == OpKind::Mapped((b + 1) as usize, MapFn::RegPending)
                &&& ops[b + 3] == OpKind::FilterMap((b + 1) as usize, FilterMapFn::RegComplete)
                &&& ops[b + 4] == OpKind::Mapped((b + 3) as usize, MapFn::ToPlaying)
                &&& ops[b + 5] == OpKind::Mapped((b + 3) as usize, MapFn::ToUnit)
                &&& ops[b + 6] == OpKind::FilterMap((b + 1) as usize, FilterMapFn::RegFirstName)
                &&& ops[b + 7] == OpKind::SnapshotFilter(
                    new_matchup.id,
                    (d + 3) as usize,
                    SnapshotFilterFn::NoPendingName,
                )
                &&& ops[b + 8] == OpKind::Merge((b + 7) as usize, (b + 6) as usize)
                &&& cells[d + 0] == CellOp::Forward(Some((d + 4) as usize))
                &&& cells[d + 1] == CellOp::MapCell((d + 0) as usize, CellFn::NotPlaying)
                &&& cells[d + 2] == CellOp::Forward(Some((d + 3) as usize))
                &&& cells[d + 3] == CellOp::Hold((b + 2) as usize)
                &&& cells[d + 4] == CellOp::Hold((b + 4) as usize)
                &&& cells[d + 5] == CellOp::Hold((b + 3) as usize)
                &&& vals[d + 3] == Value::NameOpt(None::<String>)
                &&& vals[d + 4] == Value::StateVal(AppState::RegisterPlayer)
                &&& vals[d + 5] matches Value::PlayersVal(players) && players.x.name@
                    == Seq::<char>::empty() && players.o.name@ == Seq::<char>::empty()
                &&& controller.app_state.id == d + 4
                &&& controller.players.id == d + 5
                &&& controller.prompt_player_name.id == b + 8
                &&& controller.start_game.id == b + 5
            }),
    {
        let app_state_loop = ctx.new_cell_loop();
        let not_playing_cell = ctx.map_cell(app_state_loop, CellFn::NotPlaying);
        let registration_input = ctx.gate(kb_input, not_playing_cell);

        let pending_loop = ctx.new_cell_loop();
        let reg_out = ctx.snapshot(registration_input, pending_loop, SnapshotFn::RegStep);
        let pending_next = ctx.map(reg_out, MapFn::RegPending);
        let pending_cell = ctx.hold(pending_next, Value::NameOpt(None));
        ctx.bind_cell_loop(pending_loop, pending_cell);

        let players_stream = ctx.filter_map(reg_out, FilterMapFn::RegComplete);
        let to_playing = ctx.map(players_stream, MapFn::ToPlaying);
        let app_state_cell = ctx.hold(to_playing, Value::StateVal(AppState::RegisterPlayer));
        ctx.bind_cell_loop(app_state_loop, app_state_cell);

        let start_game = ctx.map(players_stream, MapFn::ToUnit);
        let players_cell = ctx.hold(players_stream, Value::PlayersVal(Players::default()));

        let first_name_stored = ctx.filter_map(reg_out, FilterMapFn::RegFirstName);
        let boot_prompt = ctx.snapshot_filter(
            new_matchup,
            pending_cell,
            SnapshotFilterFn::NoPendingName,
        );
        let prompt_player_name = ctx.or_else(boot_prompt, first_name_stored);

        SequenceOfGames {
            app_state: app_state_cell,
            players: players_cell,
            prompt_player_name,
            start_game,
        }
    }
}

/// The game-relevant state of the composed network at rest: what the five
/// `hold` cells remember, read abstractly.
pub struct GameView {
    /// Whether input currently registers names or plays moves.
    pub app: AppState,
    /// The first name seen since registration began, if only one has.
    pub pending: Option<Seq<char>>,
    /// The registered name playing X; empty before registration completes.
    pub player_x: Seq<char>,
    /// The registered name playing O; empty before registration completes.
    pub player_o: Seq<char>,
    /// The current board.
    pub board: Seq<Option<Mark>>,
    /// Whose turn it is.
    pub turn: Mark,
}

/// What one text line makes the network emit.
pub struct LineEffectView {
    /// The validated move, if the line was accepted: square and mark.
    pub moved: Option<(usize, Mark)>,
    /// The winning mark, if this move completed a triple.
    pub winner: Option<Mark>,
    /// The one error, if the line was rejected.
    pub error: Option<Error>,
    /// The registered names, if this line completed registration.
    pub registered: Option<(Seq<char>, Seq<char>)>,
    /// Whether the start-game signal fired.
    pub start_game: bool,
    /// Whether the prompt-for-player-name signal fired.
    pub prompt: bool,
}

/// The pure meaning of one text line sent to the network: the state after
/// the transaction, and what was emitted during it.
///
/// While registering, the first name is stashed (and the next one
/// prompted for); the second completes the pair, fires the start-game
/// signal and opens play. While playing, the line is validated against
/// the pre-transaction board: a rejected line emits exactly one error and
/// changes nothing; an accepted line emits the move, folds it onto the
/// board, swaps the turn, and reports the winner if the move completed a
/// triple.
pub open spec fn line_step(s: GameView, line: Seq<char>) -> (GameView, LineEffectView) {
    if s.app is RegisterPlayer {
        match s.pending {
            None => (
                GameView { pending: Some(line), ..s },
                LineEffectView {
                    moved: None,
                    winner: None,
                    error: None,
                    registered: None,
                    start_game: false,
                    prompt: true,
                },
            ),
            Some(first) => (
                GameView {
                    app: AppState::Playing,
                    pending: None,
                    player_x: first,
                    player_o: line,
                    ..s
                },
                LineEffectView {
                    moved: None,
                    winner: None,
                    error: None,
                    registered: Some((first, line)),
                    start_game: true,
                    prompt: false,
                },
            ),
        }
    } else {
        match validate_spec(line, s.board) {
            Err(e) => (
                s,
                LineEffectView {
                    moved: None,
                    winner: None,
                    error: Some(e),
                    registered: None,
                    start_game: false,
                    prompt: false,
                },
            ),
            Ok(i) => (
                GameView {
                    board: s.board.update(i as int, Some(s.turn)),
                    turn: s.turn.opposite(),
                    ..s
                },
                LineEffectView {
                    moved: Some((i, s.turn)),
                    winner: winner_of(s.board.update(i as int, Some(s.turn))),
                    error: None,
                    registered: None,
                    start_game: false,
                    prompt: false,
                },
            ),
        }
    }
}

/// The pure meaning of one boot (new-matchup) trigger: no state changes;
/// the prompt fires exactly when no first name is pending.
pub open spec fn boot_prompts(s: GameView) -> bool {
    s.pending is None
}

/// The arena indices of the composed network's streams and cells.
///
/// The raw text sink is node 0 and the boot sink node 1; the game
/// sequence controller occupies nodes 2..=10 and cells 0..=5, the playing
/// gate node 11 and cell 6, and the game graph nodes 12..=27 and cells
/// 7..=10. The five `hold` cells sit at 3 (pending name), 4 (app state),
/// 5 (players), 9 (turn) and 10 (board).
pub open spec fn net_shape(ops: Seq<OpKind>, cells: Seq<CellOp>) -> bool {
    &&& ops.len() == 28
    &&& cells.len() == 11
    &&& ops[0] == OpKind::Source
    &&& ops[1] == OpKind::Source
    &&& ops[2] == OpKind::Gate(0, 1)
    &&& ops[3] == OpKind::Snapshot(2, 2, SnapshotFn::RegStep)
    &&& ops[4] == OpKind::Mapped(3, MapFn::RegPending)
    &&& ops[5] == OpKind::FilterMap(3, FilterMapFn::RegComplete)
    &&& ops[6] == OpKind::Mapped(5, MapFn::ToPlaying)
    &&& ops[7] == OpKind::Mapped(5, MapFn::ToUnit)
    &&& ops[8] == OpKind::FilterMap(3, FilterMapFn::RegFirstName)
    &&& ops[9] == OpKind::SnapshotFilter(1, 3, SnapshotFilterFn::NoPendingName)
    &&& ops[10] == OpKind::Merge(9, 8)
    &&& ops[11] == OpKind::Gate(0, 6)
    &&& ops[12] == OpKind::Mapped(11, MapFn::ParseLine)
    &&& ops[13] == OpKind::FilterMap(12, FilterMapFn::ParsedNum)
    &&& ops[14] == OpKind::FilterMap(12, FilterMapFn::ParseFailure)
    &&& ops[15] == OpKind::Filter(13, FilterFn::InRange)
    &&& ops[16] == OpKind::Mapped(15, MapFn::DecIndex)
    &&& ops[17] == OpKind::Filter(13, FilterFn::OutOfRange)
    &&& ops[18] == OpKind::Mapped(17, MapFn::ToInvalidIndex)
    &&& ops[19] == OpKind::SnapshotFilter(16, 7, SnapshotFilterFn::SquareFree)
    &&& ops[20] == OpKind::SnapshotFilter(16, 7, SnapshotFilterFn::SquareTaken)
    &&& ops[21] == OpKind::Mapped(20, MapFn::ToInvalidMove)
    &&& ops[22] == OpKind::Merge(14, 18)
    &&& ops[23] == OpKind::Merge(22, 21)
    &&& ops[24] == OpKind::Snapshot(19, 8, SnapshotFn::SwapTurn)
    &&& ops[25] == OpKind::Snapshot(19, 9, SnapshotFn::PairWithTurn)
    &&& ops[26] == OpKind::Snapshot3(19, 7, 9, Snapshot3Fn::ApplyMove)
    &&& ops[27] == OpKind::FilterMap(26, FilterMapFn::WinnerOf)
    &&& cells[0] == CellOp::Forward(Some(4usize))
    &&& cells[1] == CellOp::MapCell(0, CellFn::NotPlaying)
    &&& cells[2] == CellOp::Forward(Some(3usize))
    &&& cells[3] == CellOp::Hold(4)
    &&& cells[4] == CellOp::Hold(6)
    &&& cells[5] == CellOp::Hold(5)
    &&& cells[6] == CellOp::MapCell(4, CellFn::IsPlaying)
    &&& cells[7] == CellOp::Forward(Some(10usize))
    &&& cells[8] == CellOp::Forward(Some(9usize))
    &&& cells[9] == CellOp::Hold(24)
    &&& cells[10] == CellOp::Hold(26)
}

/// Whether the five `hold` slots carry payloads of the kinds the network
/// keeps in them.
pub open spec fn vals_typed(vals: Seq<Value>) -> bool {
    &&& vals.len() == 11
    &&& vals[3] is NameOpt
    &&& vals[4] is StateVal
    &&& vals[5] is PlayersVal
    &&& vals[9] is MarkVal
    &&& vals[10] is BoardVal
}

/// The values the cells hold once a transaction commits, as one sequence.
pub open spec fn committed_vals(
    ops: Seq<OpKind>,
    cells: Seq<CellOp>,
    vals: Seq<Value>,
    sink: int,
    input: Value,
) -> Seq<Value> {
    Seq::new(vals.len(), |c: int| committed_value(ops, cells, vals, sink, input, c))
}

/// In the composed network, what each cell reads as: derived cells apply
/// their transform to the app-state slot, placeholders forward to their
/// `hold` slots.
proof fn lemma_cell_values(cells: Seq<CellOp>, vals: Seq<Value>)
    requires
        cells.len() == 11,
        vals.len() == 11,
        cells[0] == CellOp::Forward(Some(4usize)),
        cells[1] == CellOp::MapCell(0, CellFn::NotPlaying),
        cells[2] == CellOp::Forward(Some(3usize)),
        cells[3] == CellOp::Hold(4),
        cells[4] == CellOp::Hold(6),
        cells[5] == CellOp::Hold(5),
        cells[6] == CellOp::MapCell(4, CellFn::IsPlaying),
        cells[7] == CellOp::Forward(Some(10usize)),
        cells[8] == CellOp::Forward(Some(9usize)),
        cells[9] == CellOp::Hold(24),
        cells[10] == CellOp::Hold(26),
    ensures
        cell_value(cells, vals, 0) == vals[4],
        cell_value(cells, vals, 1) == eval_cell_fn(CellFn::NotPlaying, vals[4]),
        cell_value(cells, vals, 2) == vals[3],
        cell_value(cells, vals, 3) == vals[3],
        cell_value(cells, vals, 4) == vals[4],
        cell_value(cells, vals, 5) == vals[5],
        cell_value(cells, vals, 6) == eval_cell_fn(CellFn::IsPlaying, vals[4]),
        cell_value(cells, vals, 7) == vals[10],
        cell_value(cells, vals, 8) == vals[9],
        cell_value(cells, vals, 9) == vals[9],
        cell_value(cells, vals, 10) == vals[10],
{
    assert(cell_value(cells, vals, 0) == vals[4]);
    assert(cell_value(cells, vals, 1) == eval_cell_fn(CellFn::NotPlaying, cell_value(cells, vals, 0)));
    assert(cell_value(cells, vals, 2) == vals[3]);
    assert(cell_value(cells, vals, 3) == vals[3]);
    assert(cell_value(cells, vals, 4) == vals[4]);
    assert(cell_value(cells, vals, 5) == vals[5]);
    assert(cell_value(cells, vals, 6) == eval_cell_fn(CellFn::IsPlaying, cell_value(cells, vals, 4)));
    assert(cell_value(cells, vals, 7) == vals[10]);
    assert(cell_value(cells, vals, 8) == vals[9]);
    assert(cell_value(cells, vals, 9) == vals[9]);
    assert(cell_value(cells, vals, 10) == vals[10]);
}

/// One text-line transaction of the composed network does exactly what
/// [`line_step`] says: the output streams fire as the effect describes,
/// and the committed cells describe the successor state.
#[verifier::rlimit(80)]
#[verifier::spinoff_prover]
proof fn lemma_line_transaction(
    ops: Seq<OpKind>,
    cells: Seq<CellOp>,
    vals: Seq<Value>,
    line: String,
)
    requires
        net_shape(ops, cells),
        vals_typed(vals),
    ensures
        ({
            let s = state_of_vals(vals);
            let stepped = line_step(s, line@);
            let eff = stepped.1;
            let input = Value::Text(line);
            let cv = committed_vals(ops, cells, vals, 0, input);
            &&& occurrence(ops, cells, vals, 0, input, 25) == match eff.moved {
                Some((i, m)) => Some(Value::MoveVal(i, m)),
                None => None::<Value>,
            }
            &&& occurrence(ops, cells, vals, 0, input, 27) == match eff.winner {
                Some(m) => Some(Value::MarkVal(m)),
                None => None::<Value>,
            }
            &&& occurrence(ops, cells, vals, 0, input, 23) == match eff.error {
                Some(e) => Some(Value::ErrVal(e)),
                None => None::<Value>,
            }
            &&& occurrence(ops, cells, vals, 0, input, 7) == if eff.start_game {
                Some(Value::Unit)
            } else {
                None::<Value>
            }
            &&& occurrence(ops, cells, vals, 0, input, 10) == if eff.prompt {
                Some(Value::Unit)
            } else {
                None::<Value>
            }
            &&& (eff.registered is Some <==> occurrence(ops, cells, vals, 0, input, 5) is Some)
            &&& (occurrence(ops, cells, vals, 0, input, 5) matches Some(v) ==> v matches
                Value::PlayersVal(p) && eff.registered == Some((p.x.name@, p.o.name@)))
            &&& vals_typed(cv)
            &&& state_of_vals(cv) == stepped.0
        }),
{
    let s = state_of_vals(vals);
    let input = Value::Text(line);
    lemma_cell_values(cells, vals);
    assert(occurrence(ops, cells, vals, 0, input, 0) == Some(input));
    assert(occurrence(ops, cells, vals, 0, input, 1) is None);
    if s.app is RegisterPlayer {
        assert(occurrence(ops, cells, vals, 0, input, 2) == Some(input));
        assert(occurrence(ops, cells, vals, 0, input, 11) is None);
        assert(occurrence(ops, cells, vals, 0, input, 12) is None);
        assert(occurrence(ops, cells, vals, 0, input, 13) is None);
        assert(occurrence(ops, cells, vals, 0, input, 14) is None);
        assert(occurrence(ops, cells, vals, 0, input, 15) is None);
        assert(occurrence(ops, cells, vals, 0, input, 16) is None);
        assert(occurrence(ops, cells, vals, 0, input, 17) is None);
        assert(occurrence(ops, cells, vals, 0, input, 18) is None);
        assert(occurrence(ops, cells, vals, 0, input, 19) is None);
        assert(occurrence(ops, cells, vals, 0, input, 20) is None);
        assert(occurrence(ops, cells, vals, 0, input, 21) is None);
        assert(occurrence(ops, cells, vals, 0, input, 22) is None);
        assert(occurrence(ops, cells, vals, 0, input, 23) is None);
        assert(occurrence(ops, cells, vals, 0, input, 24) is None);
        assert(occurrence(ops, cells, vals, 0, input, 25) is None);
        assert(occurrence(ops, cells, vals, 0, input, 26) is None);
        assert(occurrence(ops, cells, vals, 0, input, 27) is None);
        match vals[3] {
            Value::NameOpt(None) => {
                assert(occurrence(ops, cells, vals, 0, input, 3) == Some(
                    Value::RegOut(None, Some(line)),
                ));
                assert(occurrence(ops, cells, vals, 0, input, 4) == Some(
                    Value::NameOpt(Some(line)),
                ));
                assert(occurrence(ops, cells, vals, 0, input, 5) is None);
                assert(occurrence(ops, cells, vals, 0, input, 6) is None);
                assert(occurrence(ops, cells, vals, 0, input, 7) is None);
                assert(occurrence(ops, cells, vals, 0, input, 8) == Some(Value::Unit));
                assert(occurrence(ops, cells, vals, 0, input, 9) is None);
                assert(occurrence(ops, cells, vals, 0, input, 10) == Some(Value::Unit));
            },
            Value::NameOpt(Some(first)) => {
                let pair = Players {
                    x: crate::Player { name: first },
                    o: crate::Player { name: line },
                };
                assert(occurrence(ops, cells, vals, 0, input, 3) == Some(
                    Value::RegOut(Some(pair), None),
                ));
                assert(occurrence(ops, cells, vals, 0, input, 4) == Some(
                    Value::NameOpt(None::<String>),
                ));
                assert(occurrence(ops, cells, vals, 0, input, 5) == Some(Value::PlayersVal(pair)));
                assert(occurrence(ops, cells, vals, 0, input, 6) == Some(
                    Value::StateVal(AppState::Playing),
                ));
                assert(occurrence(ops, cells, vals, 0, input, 7) == Some(Value::Unit));
                assert(occurrence(ops, cells, vals, 0, input, 8) is None);
                assert(occurrence(ops, cells, vals, 0, input, 9) is None);
                assert(occurrence(ops, cells, vals, 0, input, 10) is None);
            },
            _ => {
                assert(false);
            },
        }
    } else {
        assert(occurrence(ops, cells, vals, 0, input, 2) is None);
        assert(occurrence(ops, cells, vals, 0, input, 3) is None);
        assert(occurrence(ops, cells, vals, 0, input, 4) is None);
        assert(occurrence(ops, cells, vals, 0, input, 5) is None);
        assert(occurrence(ops, cells, vals, 0, input, 6) is None);
        assert(occurrence(ops, cells, vals, 0, input, 7) is None);
        assert(occurrence(ops, cells, vals, 0, input, 8) is None);
        assert(occurrence(ops, cells, vals, 0, input, 9) is None);
        assert(occurrence(ops, cells, vals, 0, input, 10) is None);
        assert(occurrence(ops, cells, vals, 0, input, 11) == Some(input));
        assert(occurrence(ops, cells, vals, 0, input, 12) == Some(
            Value::NumOpt(parse_usize(line@)),
        ));
        match parse_usize(line@) {
            None => {
                assert(occurrence(ops, cells, vals, 0, input, 13) is None);
                assert(occurrence(ops, cells, vals, 0, input, 14) == Some(
                    Value::ErrVal(Error::InvalidInteger),
                ));
                assert(occurrence(ops, cells, vals, 0, input, 15) is None);
                assert(occurrence(ops, cells, vals, 0, input, 16) is None);
                assert(occurrence(ops, cells, vals, 0, input, 17) is None);
                assert(occurrence(ops, cells, vals, 0, input, 18) is None);
                assert(occurrence(ops, cells, vals, 0, input, 19) is None);
                assert(occurrence(ops, cells, vals, 0, input, 20) is None);
                assert(occurrence(ops, cells, vals, 0, input, 21) is None);
                assert(occurrence(ops, cells, vals, 0, input, 22) == Some(
                    Value::ErrVal(Error::InvalidInteger),
                ));
                assert(occurrence(ops, cells, vals, 0, input, 23) == Some(
                    Value::ErrVal(Error::InvalidInteger),
                ));
                assert(occurrence(ops, cells, vals, 0, input, 24) is None);
                assert(occurrence(ops, cells, vals, 0, input, 25) is None);
                assert(occurrence(ops, cells, vals, 0, input, 26) is None);
                assert(occurrence(ops, cells, vals, 0, input, 27) is None);
            },
            Some(n) => {
                assert(occurrence(ops, cells, vals, 0, input, 13) == Some(Value::Num(n)));
                assert(occurrence(ops, cells, vals, 0, input, 14) is None);
                if !(1 <= n <= 9) {
                    assert(occurrence(ops, cells, vals, 0, input, 15) is None);
                    assert(occurrence(ops, cells, vals, 0, input, 16) is None);
                    assert(occurrence(ops, cells, vals, 0, input, 17) == Some(Value::Num(n)));
                    assert(occurrence(ops, cells, vals, 0, input, 18) == Some(
                        Value::ErrVal(Error::InvalidIndex(n)),
                    ));
                    assert(occurrence(ops, cells, vals, 0, input, 19) is None);
                    assert(occurrence(ops, cells, vals, 0, input, 20) is None);
                    assert(occurrence(ops, cells, vals, 0, input, 21) is None);
                    assert(occurrence(ops, cells, vals, 0, input, 22) == Some(
                        Value::ErrVal(Error::InvalidIndex(n)),
                    ));
                    assert(occurrence(ops, cells, vals, 0, input, 23) == Some(
                        Value::ErrVal(Error::InvalidIndex(n)),
                    ));
                    assert(occurrence(ops, cells, vals, 0, input, 24) is None);
                    assert(occurrence(ops, cells, vals, 0, input, 25) is None);
                    assert(occurrence(ops, cells, vals, 0, input, 26) is None);
                    assert(occurrence(ops, cells, vals, 0, input, 27) is None);
                } else {
                    let i = (n - 1) as usize;
                    let b = vals[10]->BoardVal_0;
                    assert(occurrence(ops, cells, vals, 0, input, 15) == Some(Value::Num(n)));
                    assert(occurrence(ops, cells, vals, 0, input, 16) == Some(Value::Num(i)));
                    assert(occurrence(ops, cells, vals, 0, input, 17) is None);
                    assert(occurrence(ops, cells, vals, 0, input, 18) is None);
                    if s.board[i as int] is Some {
                        assert(occurrence(ops, cells, vals, 0, input, 19) is None);
                        assert(occurrence(ops, cells, vals, 0, input, 20) == Some(Value::Num(i)));
                        assert(occurrence(ops, cells, vals, 0, input, 21) == Some(
                            Value::ErrVal(Error::InvalidMove(i)),
                        ));
                        assert(occurrence(ops, cells, vals, 0, input, 22) is None);
                        assert(occurrence(ops, cells, vals, 0, input, 23) == Some(
                            Value::ErrVal(Error::InvalidMove(i)),
                        ));
                        assert(occurrence(ops, cells, vals, 0, input, 24) is None);
                        assert(occurrence(ops, cells, vals, 0, input, 25) is None);
                        assert(occurrence(ops, cells, vals, 0, input, 26) is None);
                        assert(occurrence(ops, cells, vals, 0, input, 27) is None);
                    } else {
                        let m = s.turn;
                        let next_board = b.placed(i as int, m);
                        assert(occurrence(ops, cells, vals, 0, input, 19) == Some(Value::Num(i)));
                        assert(occurrence(ops, cells, vals, 0, input, 20) is None);
                        assert(occurrence(ops, cells, vals, 0, input, 21) is None);
                        assert(occurrence(ops, cells, vals, 0, input, 22) is None);
                        assert(occurrence(ops, cells, vals, 0, input, 23) is None);
                        assert(occurrence(ops, cells, vals, 0, input, 24) == Some(
                            Value::MarkVal(m.opposite()),
                        ));
                        assert(occurrence(ops, cells, vals, 0, input, 25) == Some(
                            Value::MoveVal(i, m),
                        ));
                        assert(occurrence(ops, cells, vals, 0, input, 26) == Some(
                            Value::BoardVal(next_board),
                        ));
                        assert(next_board@ =~= s.board.update(i as int, Some(m)));
                        assert(occurrence(ops, cells, vals, 0, input, 27) == (
                        match winner_of(next_board@) {
                            Some(w) => Some(Value::MarkVal(w)),
                            None => None::<Value>,
                        }));
                    }
                }
            },
        }
    }
}

/// One boot (new-matchup) transaction of the composed network does
/// exactly what [`boot_prompts`] says: the prompt fires when no first
/// name is pending, nothing else fires, and no cell changes.
proof fn lemma_boot_transaction(ops: Seq<OpKind>, cells: Seq<CellOp>, vals: Seq<Value>)
    requires
        net_shape(ops, cells),
        vals_typed(vals),
    ensures
        ({
            let s = state_of_vals(vals);
            let input = Value::Unit;
            let cv = committed_vals(ops, cells, vals, 1, input);
            &&& occurrence(ops, cells, vals, 1, input, 10) == if boot_prompts(s) {
                Some(Value::Unit)
            } else {
                None::<Value>
            }
            &&& occurrence(ops, cells, vals, 1, input, 25) is None
            &&& occurrence(ops, cells, vals, 1, input, 27) is None
            &&& occurrence(ops, cells, vals, 1, input, 23) is None
            &&& occurrence(ops, cells, vals, 1, input, 7) is None
            &&& occurrence(ops, cells, vals, 1, input, 5) is None
            &&& cv =~= vals
        }),
{
    let s = state_of_vals(vals);
    let input = Value::Unit;
    lemma_cell_values(cells, vals);
    assert(occurrence(ops, cells, vals, 1, input, 0) is None);
    assert(occurrence(ops, cells, vals, 1, input, 1) == Some(input));
    assert(occurrence(ops, cells, vals, 1, input, 2) is None);
    assert(occurrence(ops, cells, vals, 1, input, 3) is None);
    assert(occurrence(ops, cells, vals, 1, input, 4) is None);
    assert(occurrence(ops, cells, vals, 1, input, 5) is None);
    assert(occurrence(ops, cells, vals, 1, input, 6) is None);
    assert(occurrence(ops, cells, vals, 1, input, 7) is None);
    assert(occurrence(ops, cells, vals, 1, input, 8) is None);
    assert(occurrence(ops, cells, vals, 1, input, 9) == (
    if s.pending is None {
        Some(Value::Unit)
    } else {
        None::<Value>
    }));
    assert(occurrence(ops, cells, vals, 1, input, 10) == (
    if s.pending is None {
        Some(Value::Unit)
    } else {
        None::<Value>
    }));
    assert(occurrence(ops, cells, vals, 1, input, 11) is None);
    assert(occurrence(ops, cells, vals, 1, input, 12) is None);
    assert(occurrence(ops, cells, vals, 1, input, 13) is None);
    assert(occurrence(ops, cells, vals, 1, input, 14) is None);
    assert(occurrence(ops, cells, vals, 1, input, 15) is None);
    assert(occurrence(ops, cells, vals, 1, input, 16) is None);
    assert(occurrence(ops, cells, vals, 1, input, 17) is None);
    assert(occurrence(ops, cells, vals, 1, input, 18) is None);
    assert(occurrence(ops, cells, vals, 1, input, 19) is None);
    assert(occurrence(ops, cells, vals, 1, input, 20) is None);
    assert(occurrence(ops, cells, vals, 1, input, 21) is None);
    assert(occurrence(ops, cells, vals, 1, input, 22) is None);
    assert(occurrence(ops, cells, vals, 1, input, 23) is None);
    assert(occurrence(ops, cells, vals, 1, input, 24) is None);
    assert(occurrence(ops, cells, vals, 1, input, 25) is None);
    assert(occurrence(ops, cells, vals, 1, input, 26) is None);
    assert(occurrence(ops, cells, vals, 1, input, 27) is None);
}

/// The game state the five `hold` slots describe.
pub open spec fn state_of_vals(vals: Seq<Value>) -> GameView {
    GameView {
        app: match vals[4] {
            Value::StateVal(a) => a,
            _ => AppState::RegisterPlayer,
        },
        pending: match vals[3] {
            Value::NameOpt(Some(name)) => Some(name@),
            _ => None,
        },
        player_x: match vals[5] {
            Value::PlayersVal(p) => p.x.name@,
            _ => Seq::empty(),
        },
        player_o: match vals[5] {
            Value::PlayersVal(p) => p.o.name@,
            _ => Seq::empty(),
        },
        board: match vals[10] {
            Value::BoardVal(b) => b@,
            _ => empty_board(),
        },
        turn: match vals[9] {
            Value::MarkVal(m) => m,
            _ => Mark::X,
        },
    }
}

/// What one text line sent to the network emitted.
pub struct LineOutcome {
    /// The validated move, if the line was accepted: square and mark.
    pub moved: Option<(usize, Mark)>,
    /// The winning mark, if this move completed a triple.
    pub winner: Option<Mark>,
    /// The one error, if the line was rejected.
    pub error: Option<Error>,
    /// The registered pair, if this line completed registration.
    pub registered: Option<Players>,
    /// Whether the start-game signal fired.
    pub start_game: bool,
    /// Whether the prompt-for-player-name signal fired.
    pub prompt: bool,
}

/// The composed network of one matchup: the game sequence controller
/// gates raw text into registration until two names are in, then into
/// the game graph; both share one raw-text sink, and a boot sink starts
/// a fresh matchup's prompting.
///
/// Every transaction is proved against [`line_step`] and
/// [`boot_prompts`]: what the network emits and how its cells move is
/// exactly what those pure functions say.
pub struct GameNetwork {
    ctx: Context,
    kb: StreamRef,
    boot: StreamRef,
    sequence: SequenceOfGames,
    game: TicTacToe,
}

impl GameNetwork {
    /// The network is wired as built: every placeholder bound, every
    /// node where the construction put it, every hold slot carrying a
    /// payload of its kind.
    pub closed spec fn wf(&self) -> bool {
        &&& self.ctx.wf()
        &&& net_shape(self.ctx.ops_view(), self.ctx.cells_view())
        &&& vals_typed(self.ctx.vals_view())
        &&& self.kb.id == 0
        &&& self.boot.id == 1
        &&& self.sequence.app_state.id == 4
        &&& self.sequence.players.id == 5
        &&& self.sequence.prompt_player_name.id == 10
        &&& self.sequence.start_game.id == 7
        &&& self.game.board.id == 10
        &&& self.game.turn.id == 9
        &&& self.game.moves.id == 25
        &&& self.game.winner.id == 27
        &&& self.game.error.id == 23
    }

    /// The game state the network's cells currently describe.
    pub closed spec fn state(&self) -> GameView {
        state_of_vals(self.ctx.vals_view())
    }

    /// Wires a fresh matchup: registration open, no name pending, both
    /// player names empty, an empty board, and X to move first.
    pub fn new() -> (net: GameNetwork)
        ensures
            net.wf(),
            net.state() == (GameView {
                app: AppState::RegisterPlayer,
                pending: None::<Seq<char>>,
                player_x: Seq::<char>::empty(),
                player_o: Seq::<char>::empty(),
                board: empty_board(),
                turn: Mark::X,
            }),
    {
        let mut ctx = Context::new();
        let kb = ctx.new_stream_sink();
        let boot = ctx.new_stream_sink();
        let sequence = SequenceOfGames::new(&mut ctx, boot, kb);
        let playing_cell = ctx.map_cell(sequence.app_state, CellFn::IsPlaying);
        let game_input = ctx.gate(kb, playing_cell);
        let game = TicTacToe::new(&mut ctx, game_input);
        GameNetwork { ctx, kb, boot, sequence, game }
    }

    /// Sends one raw text line into the network and runs its transaction
    /// to quiescence: exactly the state change and emissions of
    /// [`line_step`].
    pub fn send_line(&mut self, line: String) -> (outcome: LineOutcome)
        requires
            old(self).wf(),
        ensures
            final(self).wf(),
            final(self).state() == line_step(old(self).state(), line@).0,
            ({
                let eff = line_step(old(self).state(), line@).1;
                &&& outcome.moved == eff.moved
                &&& outcome.winner == eff.winner
                &&& outcome.error == eff.error
                &&& outcome.start_game == eff.start_game
                &&& outcome.prompt == eff.prompt
                &&& (outcome.registered is Some <==> eff.registered is Some)
                &&& (outcome.registered matches Some(p) ==> eff.registered == Some(
                    (p.x.name@, p.o.name@),
                ))
            }),
    {
        proof {
            lemma_line_transaction(
                self.ctx.ops_view(),
                self.ctx.cells_view(),
                self.ctx.vals_view(),
                line,
            );
        }
        let occs = self.ctx.send(self.kb, Value::Text(line));
        let moved: Option<(usize, Mark)> = match &occs[25] {
            Some(Value::MoveVal(i, m)) => Some((*i, *m)),
            _ => None,
        };
        let winner: Option<Mark> = match &occs[27] {
            Some(Value::MarkVal(m)) => Some(*m),
            _ => None,
        };
        let error: Option<Error> = match &occs[23] {
            Some(Value::ErrVal(e)) => Some(*e),
            _ => None,
        };
        let registered: Option<Players> = match &occs[5] {
            Some(Value::PlayersVal(p)) => Some(p.duplicate()),
            _ => None,
        };
        let start_game = matches!(&occs[7], Some(_));
        let prompt = matches!(&occs[10], Some(_));
        LineOutcome { moved, winner, error, registered, start_game, prompt }
    }

    /// Sends the boot (new-matchup) trigger: no cell changes; returns
    /// whether the prompt-for-player-name signal fired, which it does
    /// exactly when no first name is pending.
    pub fn send_boot(&mut self) -> (prompted: bool)
        requires
            old(self).wf(),
        ensures
            final(self).wf(),
            final(self).state() == old(self).state(),
            prompted == boot_prompts(old(self).state()),
    {
        proof {
            lemma_boot_transaction(self.ctx.ops_view(), self.ctx.cells_view(), self.ctx.vals_view());
        }
        let occs = self.ctx.send(self.boot, Value::Unit);
        proof {
            assert(self.ctx.vals_view() =~= old(self).ctx.vals_view());
        }
        matches!(&occs[10], Some(_))
    }

    /// The current board.
    pub fn board(&self) -> (board: Board)
        requires
            self.wf(),
        ensures
            board@ == self.state().board,
    {
        match self.ctx.sample(self.game.board) {
            Value::BoardVal(b) => b,
            _ => Board::new(),
        }
    }

    /// The mark whose turn it is.
    pub fn turn(&self) -> (turn: Mark)
        requires
            self.wf(),
        ensures
            turn == self.state().turn,
    {
        match self.ctx.sample(self.game.turn) {
            Value::MarkVal(m) => m,
            _ => Mark::X,
        }
    }

    /// The current phase: registering players, or playing.
    pub fn app_state(&self) -> (app: AppState)
        requires
            self.wf(),
        ensures
            app == self.state().app,
    {
        match self.ctx.sample(self.sequence.app_state) {
            Value::StateVal(a) => a,
            _ => AppState::RegisterPlayer,
        }
    }

    /// The registered pair of players; both names empty until
    /// registration completes.
    pub fn players(&self) -> (players: Players)
        requires
            self.wf(),
        ensures
            players.x.name@ == self.state().player_x,
            players.o.name@ == self.state().player_o,
    {
        match self.ctx.sample(self.sequence.players) {
            Value::PlayersVal(p) => p,
            _ => Players::new(String::new(), String::new()),
        }
    }
}

} // verus!
