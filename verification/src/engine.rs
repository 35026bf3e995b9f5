//! The reactive context: an arena of stream and cell nodes, transactional
//! propagation, and two-phase binding of cyclic cells.
//!
//! A [`Context`] holds every signal of one graph. Streams are discrete:
//! during one transaction each stream node has at most one occurrence. Cells
//! are continuous: each holds a current value that any node may sample.
//!
//! One external stimulus ([`Context::send`]) opens a transaction: the
//! occurrence of every stream node is computed, in arena order, from the
//! occurrences of its source streams and from the *pre-transaction* values
//! of the cells it samples; then every `hold` cell that saw an occurrence
//! takes it as its new value. All observers of the returned occurrences
//! therefore see one mutually consistent snapshot: cells read during the
//! transaction are all pre-update, cells read afterwards are all
//! post-update.
//!
//! A cyclic reference (a cell used inside its own defining chain) is broken
//! in two phases: [`Context::new_cell_loop`] reserves a placeholder slot,
//! consumers are wired against the placeholder, and
//! [`Context::bind_cell_loop`] fills the slot with the defining `hold`
//! cell. Binding is checked statically: a placeholder can be bound exactly
//! once, and a transaction may run only once every placeholder is bound, so
//! the misuse the construction rules forbid cannot compile into a verified
//! caller.
//!
//! The node payloads and the transforms the combinators apply are this
//! game's own (the arena is defunctionalised: a node stores *which*
//! transform it applies, and the evaluator gives each name one meaning in
//! spec and in executable code); the propagation machinery on top of them
//! is uniform.

use vstd::prelude::*;

use crate::board::Board;
use crate::board::Mark;
use crate::board::winner_of;
use crate::input::Error;
use crate::input::parse_usize;
use crate::input::parse_unsigned;
use crate::AppState;
use crate::Players;

verus! {

/// A payload travelling on a stream or held by a cell.
#[derive(Debug)]
pub enum Value {
    /// The payload of a pure trigger, such as the boot signal.
    Unit,
    /// A boolean, as held by a gating cell.
    Flag(bool),
    /// A raw text line.
    Text(String),
    /// A square index or other small number.
    Num(usize),
    /// A player's mark.
    MarkVal(Mark),
    /// A board snapshot.
    BoardVal(Board),
    /// The registration phase.
    StateVal(AppState),
    /// The registered pair of players.
    PlayersVal(Players),
    /// A rejected input.
    ErrVal(Error),
    /// A validated move: square index and the mark that took it.
    MoveVal(usize, Mark),
    /// What parsing a line as an unsigned integer yielded.
    NumOpt(Option<usize>),
    /// The name pending registration, if one name has been seen.
    NameOpt(Option<String>),
    /// One registration step's outcome: the pair once complete, and the
    /// pending name afterwards.
    RegOut(Option<Players>, Option<String>),
}

impl Value {
    /// An equal value.
    pub fn duplicate(&self) -> (copy: Value)
        ensures
            copy == *self,
    {
        match self {
            Value::Unit => Value::Unit,
            Value::Flag(b) => Value::Flag(*b),
            Value::Text(s) => Value::Text(s.clone()),
            Value::Num(n) => Value::Num(*n),
            Value::MarkVal(m) => Value::MarkVal(*m),
            Value::BoardVal(b) => Value::BoardVal(*b),
            Value::StateVal(a) => Value::StateVal(*a),
            Value::PlayersVal(p) => Value::PlayersVal(p.duplicate()),
            Value::ErrVal(e) => Value::ErrVal(*e),
            Value::MoveVal(n, m) => Value::MoveVal(*n, *m),
            Value::NumOpt(n) => Value::NumOpt(*n),
            Value::NameOpt(n) => Value::NameOpt(
                match n {
                    Some(s) => Some(s.clone()),
                    None => None,
                },
            ),
            Value::RegOut(p, n) => Value::RegOut(
                match p {
                    Some(players) => Some(players.duplicate()),
                    None => None,
                },
                match n {
                    Some(s) => Some(s.clone()),
                    None => None,
                },
            ),
        }
    }
}

/// An equal occurrence.
fn duplicate_occurrence(occ: &Option<Value>) -> (copy: Option<Value>)
    ensures
        copy == *occ,
{
    match occ {
        Some(v) => Some(v.duplicate()),
        None => None,
    }
}

/// The one-payload transforms a [`OpKind::Mapped`] node can apply.
#[derive(Copy, Clone, Debug)]
pub enum MapFn {
    /// Any occurrence becomes the `Playing` state.
    ToPlaying,
    /// Any occurrence becomes a pure trigger.
    ToUnit,
    /// A registration outcome's pending-name part.
    RegPending,
    /// A text line parsed as an unsigned integer.
    ParseLine,
    /// A 1-based index converted to its 0-based square.
    DecIndex,
    /// An out-of-range value wrapped as its error.
    ToInvalidIndex,
    /// An occupied square's index wrapped as its error.
    ToInvalidMove,
}

/// What each [`MapFn`] means.
pub open spec fn eval_map_fn(f: MapFn, v: Value) -> Value {
    match f {
        MapFn::ToPlaying => Value::StateVal(AppState::Playing),
        MapFn::ToUnit => Value::Unit,
        MapFn::RegPending => match v {
            Value::RegOut(_, pending) => Value::NameOpt(pending),
            _ => Value::Unit,
        },
        MapFn::ParseLine => match v {
            Value::Text(line) => Value::NumOpt(parse_usize(line@)),
            _ => Value::Unit,
        },
        MapFn::DecIndex => match v {
            Value::Num(n) => Value::Num(
                if n >= 1 {
                    (n - 1) as usize
                } else {
                    0
                },
            ),
            _ => Value::Unit,
        },
        MapFn::ToInvalidIndex => match v {
            Value::Num(n) => Value::ErrVal(Error::InvalidIndex(n)),
            _ => Value::Unit,
        },
        MapFn::ToInvalidMove => match v {
            Value::Num(n) => Value::ErrVal(Error::InvalidMove(n)),
            _ => Value::Unit,
        },
    }
}

/// Applies `f` as [`eval_map_fn`] says.
fn run_map_fn(f: MapFn, v: &Value) -> (r: Value)
    ensures
        r == eval_map_fn(f, *v),
{
    match f {
        MapFn::ToPlaying => Value::StateVal(AppState::Playing),
        MapFn::ToUnit => Value::Unit,
        MapFn::RegPending => match v {
            Value::RegOut(_, pending) => Value::NameOpt(
                match pending {
                    Some(s) => Some(s.clone()),
                    None => None,
                },
            ),
            _ => Value::Unit,
        },
        MapFn::ParseLine => match v {
            Value::Text(line) => Value::NumOpt(parse_unsigned(line.as_str())),
            _ => Value::Unit,
        },
        MapFn::DecIndex => match v {
            Value::Num(n) => Value::Num(
                if *n >= 1 {
                    *n - 1
                } else {
                    0
                },
            ),
            _ => Value::Unit,
        },
        MapFn::ToInvalidIndex => match v {
            Value::Num(n) => Value::ErrVal(Error::InvalidIndex(*n)),
            _ => Value::Unit,
        },
        MapFn::ToInvalidMove => match v {
            Value::Num(n) => Value::ErrVal(Error::InvalidMove(*n)),
            _ => Value::Unit,
        },
    }
}

/// The predicates a [`OpKind::Filter`] node can test.
#[derive(Copy, Clone, Debug)]
pub enum FilterFn {
    /// A parsed value inside `1..=9`.
    InRange,
    /// A parsed value outside `1..=9`.
    OutOfRange,
}

/// What each [`FilterFn`] means.
pub open spec fn eval_filter_fn(p: FilterFn, v: Value) -> bool {
    match p {
        FilterFn::InRange => match v {
            Value::Num(n) => 1 <= n <= 9,
            _ => false,
        },
        FilterFn::OutOfRange => match v {
            Value::Num(n) => !(1 <= n <= 9),
            _ => false,
        },
    }
}

/// Tests `p` as [`eval_filter_fn`] says.
fn run_filter_fn(p: FilterFn, v: &Value) -> (r: bool)
    ensures
        r == eval_filter_fn(p, *v),
{
    match p {
        FilterFn::InRange => match v {
            Value::Num(n) => 1 <= *n && *n <= 9,
            _ => false,
        },
        FilterFn::OutOfRange => match v {
            Value::Num(n) => !(1 <= *n && *n <= 9),
            _ => false,
        },
    }
}

/// The partial transforms a [`OpKind::FilterMap`] node can apply.
#[derive(Copy, Clone, Debug)]
pub enum FilterMapFn {
    /// The successfully parsed value, when parsing succeeded.
    ParsedNum,
    /// The parse-failure error, when parsing failed.
    ParseFailure,
    /// The completed pair, when a registration step completed one.
    RegComplete,
    /// A pure trigger, when a registration step only stashed a first name.
    RegFirstName,
    /// The winning mark of a board, when it has one.
    WinnerOf,
}

/// What each [`FilterMapFn`] means.
pub open spec fn eval_filter_map_fn(f: FilterMapFn, v: Value) -> Option<Value> {
    match f {
        FilterMapFn::ParsedNum => match v {
            Value::NumOpt(Some(n)) => Some(Value::Num(n)),
            _ => None,
        },
        FilterMapFn::ParseFailure => match v {
            Value::NumOpt(None) => Some(Value::ErrVal(Error::InvalidInteger)),
            _ => None,
        },
        FilterMapFn::RegComplete => match v {
            Value::RegOut(Some(players), _) => Some(Value::PlayersVal(players)),
            _ => None,
        },
        FilterMapFn::RegFirstName => match v {
            Value::RegOut(None, _) => Some(Value::Unit),
            _ => None,
        },
        FilterMapFn::WinnerOf => match v {
            Value::BoardVal(b) => match winner_of(b@) {
                Some(m) => Some(Value::MarkVal(m)),
                None => None,
            },
            _ => None,
        },
    }
}

/// Applies `f` as [`eval_filter_map_fn`] says.
fn run_filter_map_fn(f: FilterMapFn, v: &Value) -> (r: Option<Value>)
    ensures
        r == eval_filter_map_fn(f, *v),
{
    match f {
        FilterMapFn::ParsedNum => match v {
            Value::NumOpt(Some(n)) => Some(Value::Num(*n)),
            _ => None,
        },
        FilterMapFn::ParseFailure => match v {
            Value::NumOpt(None) => Some(Value::ErrVal(Error::InvalidInteger)),
            _ => None,
        },
        FilterMapFn::RegComplete => match v {
            Value::RegOut(Some(players), _) => Some(Value::PlayersVal(players.duplicate())),
            _ => None,
        },
        FilterMapFn::RegFirstName => match v {
            Value::RegOut(None, _) => Some(Value::Unit),
            _ => None,
        },
        FilterMapFn::WinnerOf => match v {
            Value::BoardVal(b) => match b.get_winner() {
                Some(m) => Some(Value::MarkVal(m)),
                None => None,
            },
            _ => None,
        },
    }
}

/// The stream-with-cell transforms a [`OpKind::Snapshot`] node can apply.
#[derive(Copy, Clone, Debug)]
pub enum SnapshotFn {
    /// One registration step: stash a first name, or complete the pair.
    RegStep,
    /// The swap of the sampled turn mark.
    SwapTurn,
    /// The occurrence's index paired with the sampled turn mark.
    PairWithTurn,
}

/// What each [`SnapshotFn`] means, given the occurrence and the sampled
/// cell value.
pub open spec fn eval_snapshot_fn(f: SnapshotFn, v: Value, cell: Value) -> Value {
    match f {
        SnapshotFn::RegStep => match (v, cell) {
            (Value::Text(line), Value::NameOpt(None)) => Value::RegOut(None, Some(line)),
            (Value::Text(line), Value::NameOpt(Some(first))) => Value::RegOut(
                Some(Players { x: crate::Player { name: first }, o: crate::Player { name: line } }),
                None,
            ),
            _ => Value::Unit,
        },
        SnapshotFn::SwapTurn => match cell {
            Value::MarkVal(m) => Value::MarkVal(m.opposite()),
            _ => Value::Unit,
        },
        SnapshotFn::PairWithTurn => match (v, cell) {
            (Value::Num(n), Value::MarkVal(m)) => Value::MoveVal(n, m),
            _ => Value::Unit,
        },
    }
}

/// Applies `f` as [`eval_snapshot_fn`] says.
fn run_snapshot_fn(f: SnapshotFn, v: &Value, cell: &Value) -> (r: Value)
    ensures
        r == eval_snapshot_fn(f, *v, *cell),
{
    match f {
        SnapshotFn::RegStep => match (v, cell) {
            (Value::Text(line), Value::NameOpt(None)) => Value::RegOut(None, Some(line.clone())),
            (Value::Text(line), Value::NameOpt(Some(first))) => Value::RegOut(
                Some(Players::new(first.clone(), line.clone())),
                None,
            ),
            _ => Value::Unit,
        },
        SnapshotFn::SwapTurn => match cell {
            Value::MarkVal(m) => Value::MarkVal(m.swap()),
            _ => Value::Unit,
        },
        SnapshotFn::PairWithTurn => match (v, cell) {
            (Value::Num(n), Value::MarkVal(m)) => Value::MoveVal(*n, *m),
            _ => Value::Unit,
        },
    }
}

/// The predicates a [`OpKind::SnapshotFilter`] node can test against a
/// sampled cell value.
#[derive(Copy, Clone, Debug)]
pub enum SnapshotFilterFn {
    /// The occurrence's square is still empty on the sampled board.
    SquareFree,
    /// The occurrence's square is already taken on the sampled board.
    SquareTaken,
    /// No first name is pending in the sampled registration state.
    NoPendingName,
}

/// What each [`SnapshotFilterFn`] means.
pub open spec fn eval_snapshot_filter_fn(p: SnapshotFilterFn, v: Value, cell: Value) -> bool {
    match p {
        SnapshotFilterFn::SquareFree => match (v, cell) {
            (Value::Num(n), Value::BoardVal(b)) => n < 9 && b@[n as int] is None,
            _ => false,
        },
        SnapshotFilterFn::SquareTaken => match (v, cell) {
            (Value::Num(n), Value::BoardVal(b)) => n < 9 && b@[n as int] is Some,
            _ => false,
        },
        SnapshotFilterFn::NoPendingName => match cell {
            Value::NameOpt(None) => true,
            _ => false,
        },
    }
}

/// Tests `p` as [`eval_snapshot_filter_fn`] says.
fn run_snapshot_filter_fn(p: SnapshotFilterFn, v: &Value, cell: &Value) -> (r: bool)
    ensures
        r == eval_snapshot_filter_fn(p, *v, *cell),
{
    match p {
        SnapshotFilterFn::SquareFree => match (v, cell) {
            (Value::Num(n), Value::BoardVal(b)) => *n < 9 && b.is_valid_move(*n),
            _ => false,
        },
        SnapshotFilterFn::SquareTaken => match (v, cell) {
            (Value::Num(n), Value::BoardVal(b)) => *n < 9 && !b.is_valid_move(*n),
            _ => false,
        },
        SnapshotFilterFn::NoPendingName => match cell {
            Value::NameOpt(None) => true,
            _ => false,
        },
    }
}

/// The three-signal transform a [`OpKind::Snapshot3`] node applies.
#[derive(Copy, Clone, Debug)]
pub enum Snapshot3Fn {
    /// The sampled board with the sampled mark placed on the occurrence's
    /// square.
    ApplyMove,
}

/// What each [`Snapshot3Fn`] means, given the occurrence and the two
/// sampled cell values.
pub open spec fn eval_snapshot3_fn(f: Snapshot3Fn, v: Value, cell1: Value, cell2: Value) -> Value {
    match f {
        Snapshot3Fn::ApplyMove => match (v, cell1, cell2) {
            (Value::Num(n), Value::BoardVal(b), Value::MarkVal(m)) => if n < 9 {
                Value::BoardVal(b.placed(n as int, m))
            } else {
                Value::Unit
            },
            _ => Value::Unit,
        },
    }
}

/// Applies `f` as [`eval_snapshot3_fn`] says.
fn run_snapshot3_fn(f: Snapshot3Fn, v: &Value, cell1: &Value, cell2: &Value) -> (r: Value)
    ensures
        r == eval_snapshot3_fn(f, *v, *cell1, *cell2),
{
    match f {
        Snapshot3Fn::ApplyMove => match (v, cell1, cell2) {
            (Value::Num(n), Value::BoardVal(b), Value::MarkVal(m)) => if *n < 9 {
                Value::BoardVal(b.mark(*n, *m))
            } else {
                Value::Unit
            },
            _ => Value::Unit,
        },
    }
}

/// The transforms a derived cell ([`CellOp::MapCell`]) can apply to the
/// cell it reads.
#[derive(Copy, Clone, Debug)]
pub enum CellFn {
    /// Whether the read state is `Playing`.
    IsPlaying,
    /// Whether the read state is not `Playing`.
    NotPlaying,
}

/// What each [`CellFn`] means.
pub open spec fn eval_cell_fn(f: CellFn, v: Value) -> Value {
    match f {
        CellFn::IsPlaying => match v {
            Value::StateVal(a) => Value::Flag(a.spec_is_playing()),
            _ => Value::Flag(false),
        },
        CellFn::NotPlaying => match v {
            Value::StateVal(a) => Value::Flag(!a.spec_is_playing()),
            _ => Value::Flag(false),
        },
    }
}

/// Applies `f` as [`eval_cell_fn`] says.
fn run_cell_fn(f: CellFn, v: &Value) -> (r: Value)
    ensures
        r == eval_cell_fn(f, *v),
{
    match f {
        CellFn::IsPlaying => match v {
            Value::StateVal(a) => Value::Flag(a.is_playing()),
            _ => Value::Flag(false),
        },
        CellFn::NotPlaying => match v {
            Value::StateVal(a) => Value::Flag(!a.is_playing()),
            _ => Value::Flag(false),
        },
    }
}

/// One stream node of the arena. Source indices always point at earlier
/// nodes, so one pass in arena order reaches a fixed point.
#[derive(Copy, Clone, Debug)]
pub enum OpKind {
    /// An external injection point; it fires when it is the stimulated
    /// sink.
    Source,
    /// Each occurrence of the source stream, transformed.
    Mapped(usize, MapFn),
    /// The occurrences of the source stream that pass the predicate.
    Filter(usize, FilterFn),
    /// The occurrences of the source stream on which the partial transform
    /// yields a value.
    FilterMap(usize, FilterMapFn),
    /// Occurrences of either stream; when both fire in one instant, the
    /// first (left) one wins.
    Merge(usize, usize),
    /// The source stream's occurrences while the boolean cell currently
    /// holds true.
    Gate(usize, usize),
    /// Each occurrence of the source stream combined with the sampled
    /// value of one cell.
    Snapshot(usize, usize, SnapshotFn),
    /// Each occurrence of the source stream combined with the sampled
    /// values of two cells.
    Snapshot3(usize, usize, usize, Snapshot3Fn),
    /// The occurrences of the source stream passing a test against the
    /// sampled value of one cell.
    SnapshotFilter(usize, usize, SnapshotFilterFn),
}

/// One cell of the arena.
#[derive(Copy, Clone, Debug)]
pub enum CellOp {
    /// A cell remembering the last occurrence of a stream, seeded with an
    /// initial value; it updates at the end of a transaction.
    Hold(usize),
    /// A cell derived from an earlier cell by a transform.
    MapCell(usize, CellFn),
    /// A forward-declared placeholder: unbound at first, later bound to
    /// the index of the `hold` cell that defines it.
    Forward(Option<usize>),
}

/// A handle on a stream node.
#[derive(Copy, Clone, Debug)]
pub struct StreamRef {
    pub id: usize,
}

/// A handle on a cell.
#[derive(Copy, Clone, Debug)]
pub struct CellRef {
    pub id: usize,
}

/// Whether stream node `op`, sitting at arena index `i` with `n_cells`
/// cells declared, references only earlier streams and declared cells.
pub open spec fn op_wf(op: OpKind, i: int, n_cells: int) -> bool {
    match op {
        OpKind::Source => true,
        OpKind::Mapped(s, _) => s < i,
        OpKind::Filter(s, _) => s < i,
        OpKind::FilterMap(s, _) => s < i,
        OpKind::Merge(a, b) => a < i && b < i,
        OpKind::Gate(s, c) => s < i && c < n_cells,
        OpKind::Snapshot(s, c, _) => s < i && c < n_cells,
        OpKind::Snapshot3(s, c1, c2, _) => s < i && c1 < n_cells && c2 < n_cells,
        OpKind::SnapshotFilter(s, c, _) => s < i && c < n_cells,
    }
}

/// Whether every stream node of `ops` is well-formed.
pub open spec fn ops_wf(ops: Seq<OpKind>, n_cells: int) -> bool {
    forall|i: int| 0 <= i < ops.len() ==> op_wf(#[trigger] ops[i], i, n_cells)
}

/// Whether cell `c` references only what exists: a `hold`'s source stream
/// among the stream nodes, a derived cell's source among the earlier
/// cells, and a bound placeholder's target a `hold` cell.
pub open spec fn cell_wf(cop: CellOp, c: int, cells: Seq<CellOp>, n_ops: int) -> bool {
    match cop {
        CellOp::Hold(s) => s < n_ops,
        CellOp::MapCell(src, _) => src < c,
        CellOp::Forward(target) => match target {
            Some(t) => t < cells.len() && cells[t as int] is Hold,
            None => true,
        },
    }
}

/// Whether every cell of `cells` is well-formed.
pub open spec fn cells_wf(cells: Seq<CellOp>, n_ops: int) -> bool {
    forall|c: int| 0 <= c < cells.len() ==> cell_wf(#[trigger] cells[c], c, cells, n_ops)
}

/// Whether every forward-declared placeholder has been bound.
pub open spec fn cells_bound(cells: Seq<CellOp>) -> bool {
    forall|c: int| 0 <= c < cells.len() ==> !(#[trigger] cells[c] is Forward
        && cells[c]->Forward_0 is None)
}

/// The current value of cell `c`: what `hold` cells remember, read through
/// derived cells and bound placeholders.
pub open spec fn cell_value(cells: Seq<CellOp>, vals: Seq<Value>, c: int) -> Value
    decreases c,
{
    if 0 <= c < cells.len() {
        match cells[c] {
            CellOp::Hold(_) => vals[c],
            CellOp::MapCell(src, f) => if 0 <= src < c {
                eval_cell_fn(f, cell_value(cells, vals, src as int))
            } else {
                Value::Unit
            },
            CellOp::Forward(target) => match target {
                Some(t) => if 0 <= t < cells.len() && cells[t as int] is Hold {
                    vals[t as int]
                } else {
                    Value::Unit
                },
                None => Value::Unit,
            },
        }
    } else {
        Value::Unit
    }
}

/// The occurrence of stream node `i` in the transaction that injects
/// `input` at the source node `sink`, with the cells holding `vals` from
/// before the transaction.
pub open spec fn occurrence(
    ops: Seq<OpKind>,
    cells: Seq<CellOp>,
    vals: Seq<Value>,
    sink: int,
    input: Value,
    i: int,
) -> Option<Value>
    decreases i,
{
    if 0 <= i < ops.len() {
        match ops[i] {
            OpKind::Source => if i == sink {
                Some(input)
            } else {
                None
            },
            OpKind::Mapped(s, f) => if 0 <= s < i {
                match occurrence(ops, cells, vals, sink, input, s as int) {
                    Some(v) => Some(eval_map_fn(f, v)),
                    None => None,
                }
            } else {
                None
            },
            OpKind::Filter(s, p) => if 0 <= s < i {
                match occurrence(ops, cells, vals, sink, input, s as int) {
                    Some(v) => if eval_filter_fn(p, v) {
                        Some(v)
                    } else {
                        None
                    },
                    None => None,
                }
            } else {
                None
            },
            OpKind::FilterMap(s, f) => if 0 <= s < i {
                match occurrence(ops, cells, vals, sink, input, s as int) {
                    Some(v) => eval_filter_map_fn(f, v),
                    None => None,
                }
            } else {
                None
            },
            OpKind::Merge(a, b) => if 0 <= a < i && 0 <= b < i {
                match occurrence(ops, cells, vals, sink, input, a as int) {
                    Some(v) => Some(v),
                    None => occurrence(ops, cells, vals, sink, input, b as int),
                }
            } else {
                None
            },
            OpKind::Gate(s, c) => if 0 <= s < i {
                match cell_value(cells, vals, c as int) {
                    Value::Flag(true) => occurrence(ops, cells, vals, sink, input, s as int),
                    _ => None,
                }
            } else {
                None
            },
            OpKind::Snapshot(s, c, f) => if 0 <= s < i {
                match occurrence(ops, cells, vals, sink, input, s as int) {
                    Some(v) => Some(eval_snapshot_fn(f, v, cell_value(cells, vals, c as int))),
                    None => None,
                }
            } else {
                None
            },
            OpKind::Snapshot3(s, c1, c2, f) => if 0 <= s < i {
                match occurrence(ops, cells, vals, sink, input, s as int) {
                    Some(v) => Some(
                        eval_snapshot3_fn(
                            f,
                            v,
                            cell_value(cells, vals, c1 as int),
                            cell_value(cells, vals, c2 as int),
                        ),
                    ),
                    None => None,
                }
            } else {
                None
            },
            OpKind::SnapshotFilter(s, c, p) => if 0 <= s < i {
                match occurrence(ops, cells, vals, sink, input, s as int) {
                    Some(v) => if eval_snapshot_filter_fn(p, v, cell_value(cells, vals, c as int)) {
                        Some(v)
                    } else {
                        None
                    },
                    None => None,
                }
            } else {
                None
            },
        }
    } else {
        None
    }
}

/// The value cell `c` holds once the transaction commits: a `hold` cell
/// takes its source stream's occurrence, if any; every other cell keeps
/// its slot.
pub open spec fn committed_value(
    ops: Seq<OpKind>,
    cells: Seq<CellOp>,
    vals: Seq<Value>,
    sink: int,
    input: Value,
    c: int,
) -> Value {
    if 0 <= c < cells.len() {
        match cells[c] {
            CellOp::Hold(s) => match occurrence(ops, cells, vals, sink, input, s as int) {
                Some(v) => v,
                None => vals[c],
            },
            _ => vals[c],
        }
    } else {
        Value::Unit
    }
}

/// The arena holding one signal graph.
pub struct Context {
    ops: Vec<OpKind>,
    cells: Vec<CellOp>,
    vals: Vec<Value>,
}

impl Context {
    /// The stream nodes, in arena order.
    pub closed spec fn ops_view(&self) -> Seq<OpKind> {
        self.ops@
    }

    /// The cells, in arena order.
    pub closed spec fn cells_view(&self) -> Seq<CellOp> {
        self.cells@
    }

    /// The slot values backing the `hold` cells.
    pub closed spec fn vals_view(&self) -> Seq<Value> {
        self.vals@
    }

    /// The graph references only what exists.
    pub open spec fn wf(&self) -> bool {
        &&& ops_wf(self.ops_view(), self.cells_view().len() as int)
        &&& cells_wf(self.cells_view(), self.ops_view().len() as int)
        &&& self.vals_view().len() == self.cells_view().len()
    }

    /// The current value of cell `c`.
    pub open spec fn spec_cell_value(&self, c: int) -> Value {
        cell_value(self.cells_view(), self.vals_view(), c)
    }

    /// An empty graph.
    pub fn new() -> (ctx: Context)
        ensures
            ctx.wf(),
            ctx.ops_view() == Seq::<OpKind>::empty(),
            ctx.cells_view() == Seq::<CellOp>::empty(),
            ctx.vals_view() == Seq::<Value>::empty(),
    {
        Context { ops: Vec::new(), cells: Vec::new(), vals: Vec::new() }
    }

    /// An external injection point for one stream of stimuli.
    pub fn new_stream_sink(&mut self) -> (sink: StreamRef)
        requires
            old(self).wf(),
        ensures
            final(self).wf(),
            sink.id == old(self).ops_view().len(),
            final(self).ops_view() == old(self).ops_view().push(OpKind::Source),
            final(self).cells_view() == old(self).cells_view(),
            final(self).vals_view() == old(self).vals_view(),
    {
        let id = self.ops.len();
        self.ops.push(OpKind::Source);
        StreamRef { id }
    }

    /// Each occurrence of `src`, transformed by `f`.
    pub fn map(&mut self, src: StreamRef, f: MapFn) -> (stream: StreamRef)
        requires
            old(self).wf(),
            src.id < old(self).ops_view().len(),
        ensures
            final(self).wf(),
            stream.id == old(self).ops_view().len(),
            final(self).ops_view() == old(self).ops_view().push(OpKind::Mapped(src.id, f)),
            final(self).cells_view() == old(self).cells_view(),
            final(self).vals_view() == old(self).vals_view(),
    {
        let id = self.ops.len();
        self.ops.push(OpKind::Mapped(src.id, f));
        StreamRef { id }
    }

    /// The occurrences of `src` that pass `p`.
    pub fn filter(&mut self, src: StreamRef, p: FilterFn) -> (stream: StreamRef)
        requires
            old(self).wf(),
            src.id < old(self).ops_view().len(),
        ensures
            final(self).wf(),
            stream.id == old(self).ops_view().len(),
            final(self).ops_view() == old(self).ops_view().push(OpKind::Filter(src.id, p)),
            final(self).cells_view() == old(self).cells_view(),
            final(self).vals_view() == old(self).vals_view(),
    {
        let id = self.ops.len();
        self.ops.push(OpKind::Filter(src.id, p));
        StreamRef { id }
    }

    /// The occurrences of `src` on which `f` yields a value.
    pub fn filter_map(&mut self, src: StreamRef, f: FilterMapFn) -> (stream: StreamRef)
        requires
            old(self).wf(),
            src.id < old(self).ops_view().len(),
        ensures
            final(self).wf(),
            stream.id == old(self).ops_view().len(),
            final(self).ops_view() == old(self).ops_view().push(OpKind::FilterMap(src.id, f)),
            final(self).cells_view() == old(self).cells_view(),
            final(self).vals_view() == old(self).vals_view(),
    {
        let id = self.ops.len();
        self.ops.push(OpKind::FilterMap(src.id, f));
        StreamRef { id }
    }

    /// Occurrences of either stream; `first` wins when both fire in one
    /// instant.
    pub fn or_else(&mut self, first: StreamRef, second: StreamRef) -> (stream: StreamRef)
        requires
            old(self).wf(),
            first.id < old(self).ops_view().len(),
            second.id < old(self).ops_view().len(),
        ensures
            final(self).wf(),
            stream.id == old(self).ops_view().len(),
            final(self).ops_view() == old(self).ops_view().push(OpKind::Merge(first.id, second.id)),
            final(self).cells_view() == old(self).cells_view(),
            final(self).vals_view() == old(self).vals_view(),
    {
        let id = self.ops.len();
        self.ops.push(OpKind::Merge(first.id, second.id));
        StreamRef { id }
    }

    /// The occurrences of `src` while the boolean cell `gate` holds true.
    pub fn gate(&mut self, src: StreamRef, gate: CellRef) -> (stream: StreamRef)
        requires
            old(self).wf(),
            src.id < old(self).ops_view().len(),
            gate.id < old(self).cells_view().len(),
        ensures
            final(self).wf(),
            stream.id == old(self).ops_view().len(),
            final(self).ops_view() == old(self).ops_view().push(OpKind::Gate(src.id, gate.id)),
            final(self).cells_view() == old(self).cells_view(),
            final(self).vals_view() == old(self).vals_view(),
    {
        let id = self.ops.len();
        self.ops.push(OpKind::Gate(src.id, gate.id));
        StreamRef { id }
    }

    /// Each occurrence of `src` combined with `cell`'s value at that
    /// instant.
    pub fn snapshot(&mut self, src: StreamRef, cell: CellRef, f: SnapshotFn) -> (stream: StreamRef)
        requires
            old(self).wf(),
            src.id < old(self).ops_view().len(),
            cell.id < old(self).cells_view().len(),
        ensures
            final(self).wf(),
            stream.id == old(self).ops_view().len(),
            final(self).ops_view() == old(self).ops_view().push(OpKind::Snapshot(src.id, cell.id, f)),
            final(self).cells_view() == old(self).cells_view(),
            final(self).vals_view() == old(self).vals_view(),
    {
        let id = self.ops.len();
        self.ops.push(OpKind::Snapshot(src.id, cell.id, f));
        StreamRef { id }
    }

    /// Each occurrence of `src` combined with two cells' values at that
    /// instant.
    pub fn snapshot3(
        &mut self,
        src: StreamRef,
        cell1: CellRef,
        cell2: CellRef,
        f: Snapshot3Fn,
    ) -> (stream: StreamRef)
        requires
            old(self).wf(),
            src.id < old(self).ops_view().len(),
            cell1.id < old(self).cells_view().len(),
            cell2.id < old(self).cells_view().len(),
        ensures
            final(self).wf(),
            stream.id == old(self).ops_view().len(),
            final(self).ops_view() == old(self).ops_view().push(
                OpKind::Snapshot3(src.id, cell1.id, cell2.id, f),
            ),
            final(self).cells_view() == old(self).cells_view(),
            final(self).vals_view() == old(self).vals_view(),
    {
        let id = self.ops.len();
        self.ops.push(OpKind::Snapshot3(src.id, cell1.id, cell2.id, f));
        StreamRef { id }
    }

    /// The occurrences of `src` passing `p` against `cell`'s value at that
    /// instant.
    pub fn snapshot_filter(
        &mut self,
        src: StreamRef,
        cell: CellRef,
        p: SnapshotFilterFn,
    ) -> (stream: StreamRef)
        requires
            old(self).wf(),
            src.id < old(self).ops_view().len(),
            cell.id < old(self).cells_view().len(),
        ensures
            final(self).wf(),
            stream.id == old(self).ops_view().len(),
            final(self).ops_view() == old(self).ops_view().push(
                OpKind::SnapshotFilter(src.id, cell.id, p),
            ),
            final(self).cells_view() == old(self).cells_view(),
            final(self).vals_view() == old(self).vals_view(),
    {
        let id = self.ops.len();
        self.ops.push(OpKind::SnapshotFilter(src.id, cell.id, p));
        StreamRef { id }
    }

    /// A cell remembering the last occurrence of `src`, starting at
    /// `init`.
    pub fn hold(&mut self, src: StreamRef, init: Value) -> (cell: CellRef)
        requires
            old(self).wf(),
            src.id < old(self).ops_view().len(),
        ensures
            final(self).wf(),
            cell.id == old(self).cells_view().len(),
            final(self).ops_view() == old(self).ops_view(),
            final(self).cells_view() == old(self).cells_view().push(CellOp::Hold(src.id)),
            final(self).vals_view() == old(self).vals_view().push(init),
    {
        let id = self.cells.len();
        self.cells.push(CellOp::Hold(src.id));
        self.vals.push(init);
        proof {
            assert forall|i: int| 0 <= i < self.ops@.len() implies op_wf(
                #[trigger] self.ops@[i],
                i,
                self.cells@.len() as int,
            ) by {
                assert(op_wf(self.ops@[i], i, old(self).cells@.len() as int));
            }
        }
        CellRef { id }
    }

    /// A cell derived from `src` by `f`.
    pub fn map_cell(&mut self, src: CellRef, f: CellFn) -> (cell: CellRef)
        requires
            old(self).wf(),
            src.id < old(self).cells_view().len(),
        ensures
            final(self).wf(),
            cell.id == old(self).cells_view().len(),
            final(self).ops_view() == old(self).ops_view(),
            final(self).cells_view() == old(self).cells_view().push(CellOp::MapCell(src.id, f)),
            final(self).vals_view() == old(self).vals_view().push(Value::Unit),
    {
        let id = self.cells.len();
        self.cells.push(CellOp::MapCell(src.id, f));
        self.vals.push(Value::Unit);
        proof {
            assert forall|i: int| 0 <= i < self.ops@.len() implies op_wf(
                #[trigger] self.ops@[i],
                i,
                self.cells@.len() as int,
            ) by {
                assert(op_wf(self.ops@[i], i, old(self).cells@.len() as int));
            }
        }
        CellRef { id }
    }

    /// A forward-declared placeholder for a cell defined later in the same
    /// construction pass; consumers of a cyclic cell are wired against it.
    pub fn new_cell_loop(&mut self) -> (cell: CellRef)
        requires
            old(self).wf(),
        ensures
            final(self).wf(),
            cell.id == old(self).cells_view().len(),
            final(self).ops_view() == old(self).ops_view(),
            final(self).cells_view() == old(self).cells_view().push(CellOp::Forward(None)),
            final(self).vals_view() == old(self).vals_view().push(Value::Unit),
    {
        let id = self.cells.len();
        self.cells.push(CellOp::Forward(None));
        self.vals.push(Value::Unit);
        proof {
            assert forall|i: int| 0 <= i < self.ops@.len() implies op_wf(
                #[trigger] self.ops@[i],
                i,
                self.cells@.len() as int,
            ) by {
                assert(op_wf(self.ops@[i], i, old(self).cells@.len() as int));
            }
        }
        CellRef { id }
    }

    /// Binds the placeholder `looped` to the `hold` cell `target`; from
    /// here on the two are observationally identical. A placeholder is
    /// bound exactly once.
    pub fn bind_cell_loop(&mut self, looped: CellRef, target: CellRef)
        requires
            old(self).wf(),
            looped.id < old(self).cells_view().len(),
            old(self).cells_view()[looped.id as int] == CellOp::Forward(None::<usize>),
            target.id < old(self).cells_view().len(),
            old(self).cells_view()[target.id as int] is Hold,
        ensures
            final(self).wf(),
            final(self).ops_view() == old(self).ops_view(),
            final(self).cells_view() == old(self).cells_view().update(
                looped.id as int,
                CellOp::Forward(Some(target.id)),
            ),
            final(self).vals_view() == old(self).vals_view(),
    {
        self.cells[looped.id] = CellOp::Forward(Some(target.id));
        proof {
            assert forall|c: int| 0 <= c < self.cells@.len() implies cell_wf(
                #[trigger] self.cells@[c],
                c,
                self.cells@,
                self.ops@.len() as int,
            ) by {
                assert(cell_wf(old(self).cells@[c], c, old(self).cells@, self.ops@.len() as int));
            }
        }
    }

    /// The current value of `cell`, read through derived cells and bound
    /// placeholders.
    pub fn sample(&self, cell: CellRef) -> (value: Value)
        requires
            self.wf(),
            cell.id < self.cells_view().len(),
        ensures
            value == self.spec_cell_value(cell.id as int),
    {
        self.sample_at(cell.id)
    }

    /// Reads cell `c` by structural recursion on the arena index.
    fn sample_at(&self, c: usize) -> (value: Value)
        requires
            self.wf(),
            c < self.cells_view().len(),
        ensures
            value == cell_value(self.cells_view(), self.vals_view(), c as int),
        decreases c,
    {
        let cop = self.cells[c];
        match cop {
            CellOp::Hold(_) => self.vals[c].duplicate(),
            CellOp::MapCell(src, f) => {
                let inner = self.sample_at(src);
                run_cell_fn(f, &inner)
            },
            CellOp::Forward(target) => match target {
                Some(t) => {
                    let target_op = self.cells[t];
                    match target_op {
                        CellOp::Hold(_) => self.vals[t].duplicate(),
                        _ => Value::Unit,
                    }
                },
                None => Value::Unit,
            },
        }
    }

    /// One transaction: injects `input` at the sink `sink`, computes every
    /// stream node's occurrence against the pre-transaction cell values,
    /// then commits every `hold` cell's new value. Returns the occurrence
    /// of every stream node, in arena order.
    pub fn send(&mut self, sink: StreamRef, input: Value) -> (occurrences: Vec<Option<Value>>)
        requires
            old(self).wf(),
            cells_bound(old(self).cells_view()),
            sink.id < old(self).ops_view().len(),
            old(self).ops_view()[sink.id as int] is Source,
        ensures
            final(self).wf(),
            final(self).ops_view() == old(self).ops_view(),
            final(self).cells_view() == old(self).cells_view(),
            occurrences@.len() == final(self).ops_view().len(),
            forall|i: int| 0 <= i < occurrences@.len() ==> occurrences@[i] == occurrence(
                final(self).ops_view(),
                final(self).cells_view(),
                old(self).vals_view(),
                sink.id as int,
                input,
                i,
            ),
            final(self).vals_view().len() == old(self).vals_view().len(),
            forall|c: int| 0 <= c < final(self).vals_view().len() ==> final(self).vals_view()[c]
                == committed_value(
                final(self).ops_view(),
                final(self).cells_view(),
                old(self).vals_view(),
                sink.id as int,
                input,
                c,
            ),
    {
        let ghost pre_vals = self.vals@;
        let n = self.ops.len();
        let mut occurrences: Vec<Option<Value>> = Vec::new();
        let mut i: usize = 0;
        while i < n
            invariant
                self == old(self),
                self.wf(),
                n == self.ops@.len(),
                pre_vals == self.vals@,
                sink.id < n,
                i <= n,
                occurrences@.len() == i,
                forall|j: int| 0 <= j < i ==> occurrences@[j] == occurrence(
                    self.ops@,
                    self.cells@,
                    pre_vals,
                    sink.id as int,
                    input,
                    j,
                ),
            decreases n - i,
        {
            let op = self.ops[i];
            proof {
                assert(op_wf(self.ops@[i as int], i as int, self.cells@.len() as int));
            }
            let occ: Option<Value> = match op {
                OpKind::Source => {
                    if i == sink.id {
                        Some(input.duplicate())
                    } else {
                        None
                    }
                },
                OpKind::Mapped(s, f) => {
                    match &occurrences[s] {
                        Some(v) => Some(run_map_fn(f, v)),
                        None => None,
                    }
                },
                OpKind::Filter(s, p) => {
                    match &occurrences[s] {
                        Some(v) => {
                            if run_filter_fn(p, v) {
                                Some(v.duplicate())
                            } else {
                                None
                            }
                        },
                        None => None,
                    }
                },
                OpKind::FilterMap(s, f) => {
                    match &occurrences[s] {
                        Some(v) => run_filter_map_fn(f, v),
                        None => None,
                    }
                },
                OpKind::Merge(a, b) => {
                    match &occurrences[a] {
                        Some(v) => Some(v.duplicate()),
                        None => duplicate_occurrence(&occurrences[b]),
                    }
                },
                OpKind::Gate(s, c) => {
                    let gate_value = self.sample_at(c);
                    match gate_value {
                        Value::Flag(true) => duplicate_occurrence(&occurrences[s]),
                        _ => None,
                    }
                },
                OpKind::Snapshot(s, c, f) => {
                    match &occurrences[s] {
                        Some(v) => {
                            let cell = self.sample_at(c);
                            Some(run_snapshot_fn(f, v, &cell))
                        },
                        None => None,
                    }
                },
                OpKind::Snapshot3(s, c1, c2, f) => {
                    match &occurrences[s] {
                        Some(v) => {
                            let cell1 = self.sample_at(c1);
                            let cell2 = self.sample_at(c2);
                            Some(run_snapshot3_fn(f, v, &cell1, &cell2))
                        },
                        None => None,
                    }
                },
                OpKind::SnapshotFilter(s, c, p) => {
                    match &occurrences[s] {
                        Some(v) => {
                            let cell = self.sample_at(c);
                            if run_snapshot_filter_fn(p, v, &cell) {
                                Some(v.duplicate())
                            } else {
                                None
                            }
                        },
                        None => None,
                    }
                },
            };
            occurrences.push(occ);
            i = i + 1;
        }
        let n_cells = self.cells.len();
        let mut c: usize = 0;
        while c < n_cells
            invariant
                self.ops@ == old(self).ops@,
                self.cells@ == old(self).cells@,
                self.wf(),
                n_cells == self.cells@.len(),
                c <= n_cells,
                self.vals@.len() == pre_vals.len(),
                occurrences@.len() == self.ops@.len(),
                forall|j: int| 0 <= j < occurrences@.len() ==> occurrences@[j] == occurrence(
                    self.ops@,
                    self.cells@,
                    pre_vals,
                    sink.id as int,
                    input,
                    j,
                ),
                forall|k: int| 0 <= k < c ==> self.vals@[k] == committed_value(
                    self.ops@,
                    self.cells@,
                    pre_vals,
                    sink.id as int,
                    input,
                    k,
                ),
                forall|k: int| c <= k < pre_vals.len() ==> self.vals@[k] == pre_vals[k],
            decreases n_cells - c,
        {
            let cop = self.cells[c];
            proof {
                assert(cell_wf(self.cells@[c as int], c as int, self.cells@, self.ops@.len() as int));
            }
            match cop {
                CellOp::Hold(s) => {
                    match &occurrences[s] {
                        Some(v) => {
                            let fresh = v.duplicate();
                            self.vals[c] = fresh;
                        },
                        None => {},
                    }
                },
                _ => {},
            }
            c = c + 1;
        }
        occurrences
    }
}

} // verus!
