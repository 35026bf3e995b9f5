//! Game-wide laws, stated over the pure transition function
//! [`line_step`] that every network transaction is proved to implement.

use vstd::prelude::*;

use crate::board::Mark;
use crate::input::parse_usize;
use crate::input::validate_spec;
use crate::input::Error;
use crate::network::boot_prompts;
use crate::network::line_step;
use crate::network::GameView;

verus! {

/// The state after a whole sequence of text lines has been sent.
pub open spec fn run_lines(s: GameView, lines: Seq<Seq<char>>) -> GameView
    decreases lines.len(),
{
    if lines.len() == 0 {
        s
    } else {
        run_lines(line_step(s, lines[0]).0, lines.subrange(1, lines.len() as int))
    }
}

/// Every validated move a sequence of text lines emits, in order.
pub open spec fn moves_emitted(s: GameView, lines: Seq<Seq<char>>) -> Seq<(usize, Mark)>
    decreases lines.len(),
{
    if lines.len() == 0 {
        Seq::empty()
    } else {
        let rest = moves_emitted(
            line_step(s, lines[0]).0,
            lines.subrange(1, lines.len() as int),
        );
        match line_step(s, lines[0]).1.moved {
            Some(mv) => seq![mv] + rest,
            None => rest,
        }
    }
}

/// How many errors a sequence of text lines emits.
pub open spec fn errors_emitted(s: GameView, lines: Seq<Seq<char>>) -> nat
    decreases lines.len(),
{
    if lines.len() == 0 {
        0
    } else {
        (if line_step(s, lines[0]).1.error is Some {
            1nat
        } else {
            0nat
        }) + errors_emitted(line_step(s, lines[0]).0, lines.subrange(1, lines.len() as int))
    }
}

/// The same line, `n` times over.
pub open spec fn repeated(line: Seq<char>, n: nat) -> Seq<Seq<char>> {
    Seq::new(n, |i: int| line)
}

/// Turn alternation: over any sequence of inputs, the k-th validated
/// move is made by the mark whose turn it was at the start for even k,
/// and by the other mark for odd k — independent of errors or
/// registration lines interleaved between moves. With the fresh
/// network's starting turn, move k is made by X exactly when k is even.
pub proof fn lemma_turn_alternates(s: GameView, lines: Seq<Seq<char>>)
    ensures
        forall|k: int|
            0 <= k < moves_emitted(s, lines).len() ==> (#[trigger] moves_emitted(s, lines)[k]).1
                == (if k % 2 == 0 {
                s.turn
            } else {
                s.turn.opposite()
            }),
    decreases lines.len(),
{
    if lines.len() > 0 {
        let next = line_step(s, lines[0]).0;
        let eff = line_step(s, lines[0]).1;
        let rest = lines.subrange(1, lines.len() as int);
        lemma_turn_alternates(next, rest);
        match eff.moved {
            Some(mv) => {
                assert(mv.1 == s.turn);
                assert(next.turn == s.turn.opposite());
                let ms = moves_emitted(s, lines);
                let rest_ms = moves_emitted(next, rest);
                assert(ms == seq![mv] + rest_ms);
                assert forall|k: int| 0 <= k < ms.len() implies (#[trigger] ms[k]).1 == (if k % 2
                    == 0 {
                    s.turn
                } else {
                    s.turn.opposite()
                }) by {
                    if k == 0 {
                        assert(ms[0] == mv);
                    } else {
                        assert(ms[k] == rest_ms[k - 1]);
                        assert((k - 1) % 2 == (if k % 2 == 0 {
                            1int
                        } else {
                            0int
                        }));
                    }
                }
            },
            None => {
                assert(next.turn == s.turn);
                assert(moves_emitted(s, lines) == moves_emitted(next, rest));
            },
        }
    }
}

/// Rejection is exact: while playing, a line emits an error exactly when
/// it is not an integer, or out of `1..=9`, or aims at an occupied
/// square; a rejected line leaves the whole state unchanged; and while
/// registering no line ever emits an error.
pub proof fn lemma_error_exactly_when_rejected(s: GameView, line: Seq<char>)
    ensures
        s.app is Playing ==> (line_step(s, line).1.error is Some <==> (parse_usize(line) is None
            || (parse_usize(line) matches Some(n) && !(1 <= n <= 9)) || (parse_usize(line)
            matches Some(n) && 1 <= n <= 9 && s.board[n - 1] is Some))),
        s.app is Playing ==> line_step(s, line).1.error == (match validate_spec(line, s.board) {
            Result::Err(e) => Some(e),
            Result::Ok(_) => None::<Error>,
        }),
        line_step(s, line).1.error is Some ==> line_step(s, line).0 == s,
        !(s.app is Playing) ==> line_step(s, line).1.error is None,
        s.app is Playing ==> (line_step(s, line).1.moved is Some <==> line_step(
            s,
            line,
        ).1.error is None),
        !(s.app is Playing) ==> line_step(s, line).1.moved is None,
{
}

/// Rejection is idempotent: a line the current state rejects can be sent
/// any number of times over; every repetition emits one error, and the
/// state — the board among it — never changes.
pub proof fn lemma_rejection_idempotent(s: GameView, line: Seq<char>, n: nat)
    requires
        line_step(s, line).1.error is Some,
    ensures
        run_lines(s, repeated(line, n)) == s,
        errors_emitted(s, repeated(line, n)) == n,
        moves_emitted(s, repeated(line, n)) == Seq::<(usize, Mark)>::empty(),
    decreases n,
{
    lemma_error_exactly_when_rejected(s, line);
    if n == 0 {
        assert(repeated(line, n) =~= Seq::<Seq<char>>::empty());
    } else {
        let lines = repeated(line, n);
        assert(lines[0] == line);
        assert(lines.subrange(1, lines.len() as int) =~= repeated(line, (n - 1) as nat));
        assert(line_step(s, line).0 == s);
        lemma_rejection_idempotent(s, line, (n - 1) as nat);
    }
}

/// Registration: from a fresh matchup, the first name line only stashes
/// the name and prompts for the next; the second completes exactly one
/// players pair and fires exactly one start-game signal; the state is
/// then `Playing` with the first name on X and the second on O — and
/// stays `Playing`, since no later line and no boot trigger ever leaves
/// it.
pub proof fn lemma_registration(s: GameView, name1: Seq<char>, name2: Seq<char>)
    requires
        s.app is RegisterPlayer,
        s.pending is None,
    ensures
        ({
            let first = line_step(s, name1);
            let second = line_step(first.0, name2);
            &&& first.1.registered is None
            &&& !first.1.start_game
            &&& first.1.prompt
            &&& first.0.app is RegisterPlayer
            &&& second.1.registered == Some((name1, name2))
            &&& second.1.start_game
            &&& second.0.app is Playing
            &&& second.0.player_x == name1
            &&& second.0.player_o == name2
            &&& second.0.board == s.board
            &&& second.0.turn == s.turn
        }),
{
}

/// Once playing, always playing: no line moves the state back to
/// registration, no line touches the registered names, and a boot
/// trigger never changes any state at all (nor re-prompts once a first
/// name is pending).
pub proof fn lemma_playing_is_absorbing(s: GameView, line: Seq<char>)
    ensures
        s.app is Playing ==> line_step(s, line).0.app is Playing,
        s.app is Playing ==> line_step(s, line).0.player_x == s.player_x && line_step(
            s,
            line,
        ).0.player_o == s.player_o,
        s.pending is Some ==> !boot_prompts(s),
{
}

/// The fixed out-of-range and non-numeric probes: while playing, the
/// line `"10"` is rejected as the invalid index 10 on every board, and
/// the line `"abc"` is rejected as not an integer on every board.
pub proof fn lemma_fixed_rejections(s: GameView)
    requires
        s.app is Playing,
    ensures
        line_step(s, "10"@).1.error == Some(Error::InvalidIndex(10)),
        line_step(s, "abc"@).1.error == Some(Error::InvalidInteger),
{
    reveal_strlit("10");
    reveal_strlit("abc");
    let ten = "10"@;
    assert(ten.len() == 2);
    assert(ten[0] == '1' && ten[1] == '0');
    assert(ten.drop_last() =~= seq!['1']);
    assert(seq!['1'].drop_last() =~= Seq::<char>::empty());
    assert(crate::input::digits_val(Seq::<char>::empty()) == 0);
    assert(crate::input::digits_val(seq!['1']) == 1) by {
        assert(seq!['1'].last() == '1');
        assert(seq!['1'].drop_last() =~= Seq::<char>::empty());
        assert(crate::input::digit_val('1') == 1);
    }
    assert(crate::input::digits_val(ten) == 10);
    assert(crate::input::all_digits(ten));
    assert(parse_usize(ten) == Some(10usize));

    let abc = "abc"@;
    assert(abc.len() == 3);
    assert(abc[0] == 'a');
    assert(!crate::input::is_digit(abc[0]));
    assert(crate::input::unsigned_digits(abc) == abc);
    assert(!crate::input::all_digits(abc));
    assert(parse_usize(abc) is None);
}

} // verus!
