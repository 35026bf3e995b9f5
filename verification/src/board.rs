//! The immutable 3x3 grid value type and its win detection.
//!
//! A board is a snapshot: marking a square returns a new value, it never
//! edits the old one in place. The winner scan walks the 8 fixed triples
//! (3 rows, 3 columns, 2 diagonals) in that order and reports the first
//! triple held entirely by one mark.

use vstd::prelude::*;

verus! {

/// One player's mark.
#[derive(Copy, Clone, Debug, PartialEq, Eq)]
pub enum Mark {
    X,
    O,
}

impl Mark {
    /// The other mark.
    pub open spec fn opposite(self) -> Mark {
        match self {
            Mark::X => Mark::O,
            Mark::O => Mark::X,
        }
    }

    /// Returns the other variant.
    pub fn swap(&self) -> (other: Mark)
        ensures
            other == self.opposite(),
    {
        match self {
            Mark::X => Mark::O,
            Mark::O => Mark::X,
        }
    }
}

/// A 3x3 grid: square index 0..=8 maps to its occupant, if any.
///
/// The squares are nine fields of one `Copy` value, so every "mutation"
/// yields a fresh snapshot and old holders keep what they saw.
#[derive(Copy, Clone, Debug)]
pub struct Board {
    pub sq0: Option<Mark>,
    pub sq1: Option<Mark>,
    pub sq2: Option<Mark>,
    pub sq3: Option<Mark>,
    pub sq4: Option<Mark>,
    pub sq5: Option<Mark>,
    pub sq6: Option<Mark>,
    pub sq7: Option<Mark>,
    pub sq8: Option<Mark>,
}

impl View for Board {
    type V = Seq<Option<Mark>>;

    open spec fn view(&self) -> Seq<Option<Mark>> {
        seq![self.sq0, self.sq1, self.sq2, self.sq3, self.sq4, self.sq5, self.sq6, self.sq7,
            self.sq8]
    }
}

/// The view of a board with no mark on any square.
pub open spec fn empty_board() -> Seq<Option<Mark>> {
    seq![None, None, None, None, None, None, None, None, None]
}

/// Whether squares `a`, `b` and `c` are all held by one mark.
pub open spec fn triple_won(s: Seq<Option<Mark>>, a: int, b: int, c: int) -> bool {
    s[a] is Some && s[b] == s[a] && s[c] == s[a]
}

/// The fixed winning triples, in the order the scan walks them:
/// 3 rows, then 3 columns, then the 2 diagonals.
pub open spec fn win_triple(k: int) -> (int, int, int) {
    if k == 0 {
        (0, 1, 2)
    } else if k == 1 {
        (3, 4, 5)
    } else if k == 2 {
        (6, 7, 8)
    } else if k == 3 {
        (0, 3, 6)
    } else if k == 4 {
        (1, 4, 7)
    } else if k == 5 {
        (2, 5, 8)
    } else if k == 6 {
        (0, 4, 8)
    } else {
        (2, 4, 6)
    }
}

/// Whether the `k`-th fixed triple is held entirely by one mark.
pub open spec fn triple_index_won(s: Seq<Option<Mark>>, k: int) -> bool {
    triple_won(s, win_triple(k).0, win_triple(k).1, win_triple(k).2)
}

/// The winner scan: the common mark of the first fully-held triple, walking
/// rows, columns and diagonals in the fixed order; `None` when no triple is
/// fully held.
pub open spec fn winner_of(s: Seq<Option<Mark>>) -> Option<Mark> {
    if triple_won(s, 0, 1, 2) {
        s[0]
    } else if triple_won(s, 3, 4, 5) {
        s[3]
    } else if triple_won(s, 6, 7, 8) {
        s[6]
    } else if triple_won(s, 0, 3, 6) {
        s[0]
    } else if triple_won(s, 1, 4, 7) {
        s[1]
    } else if triple_won(s, 2, 5, 8) {
        s[2]
    } else if triple_won(s, 0, 4, 8) {
        s[0]
    } else if triple_won(s, 2, 4, 6) {
        s[2]
    } else {
        None
    }
}

/// The common mark of three squares when one mark holds all three.
fn line(a: Option<Mark>, b: Option<Mark>, c: Option<Mark>) -> (won: Option<Mark>)
    ensures
        won == (if a is Some && b == a && c == a {
            a
        } else {
            None::<Mark>
        }),
{
    match (a, b, c) {
        (Some(Mark::X), Some(Mark::X), Some(Mark::X)) => Some(Mark::X),
        (Some(Mark::O), Some(Mark::O), Some(Mark::O)) => Some(Mark::O),
        _ => None,
    }
}

impl Board {
    /// The board value that [`Board::mark`] returns: this board with `mark`
    /// placed on square `index`.
    pub open spec fn placed(self, index: int, mark: Mark) -> Board {
        if index == 0 {
            Board { sq0: Some(mark), ..self }
        } else if index == 1 {
            Board { sq1: Some(mark), ..self }
        } else if index == 2 {
            Board { sq2: Some(mark), ..self }
        } else if index == 3 {
            Board { sq3: Some(mark), ..self }
        } else if index == 4 {
            Board { sq4: Some(mark), ..self }
        } else if index == 5 {
            Board { sq5: Some(mark), ..self }
        } else if index == 6 {
            Board { sq6: Some(mark), ..self }
        } else if index == 7 {
            Board { sq7: Some(mark), ..self }
        } else {
            Board { sq8: Some(mark), ..self }
        }
    }

    /// A board with no mark on any square.
    pub fn new() -> (board: Board)
        ensures
            board@ == empty_board(),
    {
        Board {
            sq0: None,
            sq1: None,
            sq2: None,
            sq3: None,
            sq4: None,
            sq5: None,
            sq6: None,
            sq7: None,
            sq8: None,
        }
    }

    /// The occupant of square `index`, if any.
    pub fn get(&self, index: usize) -> (occupant: Option<Mark>)
        requires
            index < 9,
        ensures
            occupant == self@[index as int],
    {
        match index {
            0 => self.sq0,
            1 => self.sq1,
            2 => self.sq2,
            3 => self.sq3,
            4 => self.sq4,
            5 => self.sq5,
            6 => self.sq6,
            7 => self.sq7,
            _ => self.sq8,
        }
    }

    /// A fresh board with `mark` placed on square `index`; this board is
    /// left as it was.
    pub fn mark(&self, index: usize, mark: Mark) -> (marked: Board)
        requires
            index < 9,
        ensures
            marked == self.placed(index as int, mark),
            marked@ == self@.update(index as int, Some(mark)),
    {
        let next = match index {
            0 => Board { sq0: Some(mark), ..*self },
            1 => Board { sq1: Some(mark), ..*self },
            2 => Board { sq2: Some(mark), ..*self },
            3 => Board { sq3: Some(mark), ..*self },
            4 => Board { sq4: Some(mark), ..*self },
            5 => Board { sq5: Some(mark), ..*self },
            6 => Board { sq6: Some(mark), ..*self },
            7 => Board { sq7: Some(mark), ..*self },
            _ => Board { sq8: Some(mark), ..*self },
        };
        proof {
            assert(next@ =~= self@.update(index as int, Some(mark)));
        }
        next
    }

    /// Whether a move on square `index` is legal: the square is still empty.
    pub fn is_valid_move(&self, index: usize) -> (legal: bool)
        requires
            index < 9,
        ensures
            legal == (self@[index as int] is None),
    {
        match self.get(index) {
            None => true,
            Some(_) => false,
        }
    }

    /// The winning mark, if one mark holds a full row, column or diagonal.
    pub fn get_winner(&self) -> (winner: Option<Mark>)
        ensures
            winner == winner_of(self@),
    {
        if let Some(m) = line(self.sq0, self.sq1, self.sq2) {
            return Some(m);
        }
        if let Some(m) = line(self.sq3, self.sq4, self.sq5) {
            return Some(m);
        }
        if let Some(m) = line(self.sq6, self.sq7, self.sq8) {
            return Some(m);
        }
        if let Some(m) = line(self.sq0, self.sq3, self.sq6) {
            return Some(m);
        }
        if let Some(m) = line(self.sq1, self.sq4, self.sq7) {
            return Some(m);
        }
        if let Some(m) = line(self.sq2, self.sq5, self.sq8) {
            return Some(m);
        }
        if let Some(m) = line(self.sq0, self.sq4, self.sq8) {
            return Some(m);
        }
        if let Some(m) = line(self.sq2, self.sq4, self.sq6) {
            return Some(m);
        }
        None
    }

    /// The display label of each square, in index order: `'X'`, `'O'`, or a
    /// space for an empty square.
    pub fn display_squares(&self) -> (labels: Vec<char>)
        ensures
            labels@.len() == 9,
            forall|i: int| 0 <= i < 9 ==> labels@[i] == square_label(self@[i]),
    {
        let mut labels: Vec<char> = Vec::new();
        labels.push(label_of(self.sq0));
        labels.push(label_of(self.sq1));
        labels.push(label_of(self.sq2));
        labels.push(label_of(self.sq3));
        labels.push(label_of(self.sq4));
        labels.push(label_of(self.sq5));
        labels.push(label_of(self.sq6));
        labels.push(label_of(self.sq7));
        labels.push(label_of(self.sq8));
        labels
    }
}

/// The display label of one square.
pub open spec fn square_label(square: Option<Mark>) -> char {
    match square {
        Some(Mark::X) => 'X',
        Some(Mark::O) => 'O',
        None => ' ',
    }
}

fn label_of(square: Option<Mark>) -> (label: char)
    ensures
        label == square_label(square),
{
    match square {
        Some(Mark::X) => 'X',
        Some(Mark::O) => 'O',
        None => ' ',
    }
}

/// The winner scan finds a mark exactly when one of the 8 fixed triples is
/// held entirely by one mark; on the empty board it finds none.
pub proof fn lemma_winner_characterization(s: Seq<Option<Mark>>)
    requires
        s.len() == 9,
    ensures
        winner_of(s) is Some <==> exists|k: int| 0 <= k < 8 && triple_index_won(s, k),
        s == empty_board() ==> winner_of(s) is None,
{
    if winner_of(s) is Some {
        if triple_won(s, 0, 1, 2) {
            assert(triple_index_won(s, 0));
        } else if triple_won(s, 3, 4, 5) {
            assert(triple_index_won(s, 1));
        } else if triple_won(s, 6, 7, 8) {
            assert(triple_index_won(s, 2));
        } else if triple_won(s, 0, 3, 6) {
            assert(triple_index_won(s, 3));
        } else if triple_won(s, 1, 4, 7) {
            assert(triple_index_won(s, 4));
        } else if triple_won(s, 2, 5, 8) {
            assert(triple_index_won(s, 5));
        } else if triple_won(s, 0, 4, 8) {
            assert(triple_index_won(s, 6));
        } else {
            assert(triple_index_won(s, 7));
        }
    }
    if exists|k: int| 0 <= k < 8 && triple_index_won(s, k) {
        let k = choose|k: int| 0 <= k < 8 && triple_index_won(s, k);
        assert(winner_of(s) is Some);
    }
}

} // verus!
