use vstd::prelude::*;
use crate::guess_text::{GuessError, guess_of};
use crate::guessing_game::{
    Outcome, Signal, is_win, session_signals, signal_for, valid_secret,
};

verus! {

/// Every line read gets exactly one answer, in order: for a line that holds an
/// integer, "too small" when it is under the secret, "too big" when it is over
/// it, a win when it is the secret itself.
/// The session reads up to the first line that holds the secret and no further,
/// so the win comes once, last; with no such line every line is answered.
pub proof fn lemma_one_answer_per_line(secret: u32, lines: Seq<Seq<char>>)
    requires
        valid_secret(secret),
    ensures
        ({
            let out = session_signals(secret, lines);
            &&& out.len() <= lines.len()
            &&& forall|i: int| 0 <= i < out.len() ==> out[i] == signal_for(secret, #[trigger] lines[i])
            &&& forall|i: int| 0 <= i < out.len() && (#[trigger] guess_of(lines[i])) is Ok ==>
                (out[i] == Signal::Judged(Outcome::Less) <==> guess_of(lines[i])->Ok_0 < secret)
                && (out[i] == Signal::Judged(Outcome::Greater) <==> guess_of(lines[i])->Ok_0 > secret)
                && (out[i] == Signal::Judged(Outcome::Equal) <==> guess_of(lines[i])->Ok_0 == secret)
            &&& forall|j: int| 0 <= j < lines.len() && guess_of(lines[j]) == Ok::<int, GuessError>(secret as int)
                && (forall|k: int| 0 <= k < j ==> guess_of(lines[k]) != Ok::<int, GuessError>(secret as int))
                ==> out.len() == j + 1
            &&& (forall|k: int| 0 <= k < lines.len() ==> !is_win(signal_for(secret, #[trigger] lines[k])))
                ==> out.len() == lines.len()
        }),
    decreases lines.len(),
{
    if lines.len() > 0 {
        let rest = lines.drop_first();
        lemma_one_answer_per_line(secret, rest);
        let out = session_signals(secret, lines);
        let sig = signal_for(secret, lines[0]);
        if !is_win(sig) {
            let tail = session_signals(secret, rest);
            assert forall|i: int| 0 <= i < out.len() implies out[i] == signal_for(secret, lines[i]) by {
                if i > 0 {
                    assert(out[i] == tail[i - 1]);
                    assert(rest[i - 1] == lines[i]);
                }
            }
            assert forall|j: int| 0 <= j < lines.len() && guess_of(lines[j]) == Ok::<int, GuessError>(secret as int)
                && (forall|k: int| 0 <= k < j ==> guess_of(lines[k]) != Ok::<int, GuessError>(secret as int))
                implies out.len() == j + 1 by {
                assert(j > 0);
                assert(rest[j - 1] == lines[j]);
                assert forall|k: int| 0 <= k < j - 1 implies guess_of(rest[k]) != Ok::<int, GuessError>(secret as int) by {
                    assert(rest[k] == lines[k + 1]);
                }
            }
            if forall|k: int| 0 <= k < lines.len() ==> !is_win(signal_for(secret, #[trigger] lines[k])) {
                assert forall|k: int| 0 <= k < rest.len() implies !is_win(signal_for(secret, #[trigger] rest[k])) by {
                    assert(rest[k] == lines[k + 1]);
                }
            }
        }
    }
}

/// The session ends on a win and on nothing else: every answer before the
/// last is "too small", "too big" or a malformed line, and when lines are left
/// unread the last answer is the win.
pub proof fn lemma_ends_only_on_win(secret: u32, lines: Seq<Seq<char>>)
    requires
        valid_secret(secret),
    ensures
        ({
            let out = session_signals(secret, lines);
            &&& forall|i: int| 0 <= i < out.len() - 1 ==> !is_win(#[trigger] out[i])
            &&& out.len() < lines.len() ==> out.len() > 0 && is_win(out.last())
        }),
    decreases lines.len(),
{
    if lines.len() > 0 {
        let rest = lines.drop_first();
        lemma_ends_only_on_win(secret, rest);
        let out = session_signals(secret, lines);
        let sig = signal_for(secret, lines[0]);
        if !is_win(sig) {
            let tail = session_signals(secret, rest);
            assert forall|i: int| 0 <= i < out.len() - 1 implies !is_win(#[trigger] out[i]) by {
                if i > 0 {
                    assert(out[i] == tail[i - 1]);
                }
            }
            if out.len() < lines.len() {
                assert(tail.len() > 0);
                assert(out.last() == tail.last());
            }
        }
    }
}

/// A line that holds no number is answered with why, never with a comparison;
/// the session then goes on reading with the same secret.
pub proof fn lemma_malformed_line(secret: u32, line: Seq<char>, rest: Seq<Seq<char>>)
    requires
        valid_secret(secret),
        guess_of(line) is Err,
    ensures
        signal_for(secret, line) == Signal::Malformed(guess_of(line)->Err_0),
        session_signals(secret, seq![line] + rest) == seq![signal_for(secret, line)]
            + session_signals(secret, rest),
{
    assert((seq![line] + rest).drop_first() =~= rest);
}

} // verus!
