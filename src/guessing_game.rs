use vstd::prelude::*;
use crate::guess_text::{GuessError, capped, guess_of, read_guess};

verus! {

/// The smallest secret a session can draw.
pub const SECRET_MIN: u32 = 1;

/// The largest secret a session can draw.
pub const SECRET_MAX: u32 = 100;

/// How a guess compares with the secret.
#[derive(PartialEq, Eq, Structural, Clone, Copy, Debug)]
pub enum Outcome {
    Less,
    Greater,
    Equal,
}

/// What one line of input brings back to the player.
#[derive(PartialEq, Eq, Structural, Clone, Copy, Debug)]
pub enum Signal {
    /// The line held no number: the player is asked again.
    Malformed(GuessError),
    /// The line held a guess, which compared with the secret as said.
    Judged(Outcome),
}

pub open spec fn outcome_of(guess: int, secret: u32) -> Outcome {
    if guess < secret as i64 {
        Outcome::Less
    } else if guess > secret as i64 {
        Outcome::Greater
    } else {
        Outcome::Equal
    }
}

pub open spec fn is_win(sig: Signal) -> bool {
    sig == Signal::Judged(Outcome::Equal)
}

/// The answer to one line of input in a session with the given secret.
pub open spec fn signal_for(secret: u32, line: Seq<char>) -> Signal {
    match guess_of(line) {
        Ok(g) => Signal::Judged(outcome_of(g, secret)),
        Err(e) => Signal::Malformed(e),
    }
}

/// The answers of a session to the lines it reads, up to and including the
/// first win; lines after it are never read.
pub open spec fn session_signals(secret: u32, lines: Seq<Seq<char>>) -> Seq<Signal>
    decreases lines.len(),
{
    if lines.len() == 0 {
        Seq::empty()
    } else {
        let sig = signal_for(secret, lines[0]);
        if is_win(sig) {
            seq![sig]
        } else {
            seq![sig] + session_signals(secret, lines.drop_first())
        }
    }
}

pub open spec fn valid_secret(secret: u32) -> bool {
    SECRET_MIN <= secret <= SECRET_MAX
}

/// Compares a guess with the secret.
pub fn compare(guess: i64, secret: u32) -> (r: Outcome)
    ensures
        r == outcome_of(guess as int, secret),
{
    if guess < secret as i64 {
        Outcome::Less
    } else if guess > secret as i64 {
        Outcome::Greater
    } else {
        Outcome::Equal
    }
}

/// Answers one line of input: the number it holds compared with the secret, or
/// why it holds none.
pub fn judge_line(secret: u32, line: &str) -> (r: Signal)
    ensures
        r == signal_for(secret, line@),
{
    match read_guess(line) {
        Ok(g) => {
            proof {
                let v = guess_of(line@)->Ok_0;
                assert(g as int == capped(v));
                assert(outcome_of(capped(v), secret) == outcome_of(v, secret));
            }
            Signal::Judged(compare(g, secret))
        },
        Err(e) => Signal::Malformed(e),
    }
}

/// One game: a secret fixed when it starts, and whether it has been guessed.
pub struct Session {
    secret: u32,
    finished: bool,
}

impl Session {
    pub closed spec fn spec_secret(&self) -> u32 {
        self.secret
    }

    pub closed spec fn spec_finished(&self) -> bool {
        self.finished
    }

    pub open spec fn wf(&self) -> bool {
        valid_secret(self.spec_secret())
    }

    /// A session over a secret chosen by the caller.
    pub fn new(secret: u32) -> (r: Session)
        requires
            valid_secret(secret),
        ensures
            r.wf(),
            r.spec_secret() == secret,
            !r.spec_finished(),
    {
        Session { secret, finished: false }
    }

    /// A session over a secret drawn at random, fresh for this session.
    pub fn start() -> (r: Session)
        ensures
            r.wf(),
            !r.spec_finished(),
    {
        let mut rng = rand::thread_rng();
        let secret = gen_range(&mut rng, SECRET_MIN, SECRET_MAX + 1);
        Session { secret, finished: false }
    }

    pub fn secret(&self) -> (r: u32)
        ensures
            r == self.spec_secret(),
    {
        self.secret
    }

    pub fn is_finished(&self) -> (r: bool)
        ensures
            r == self.spec_finished(),
    {
        self.finished
    }

    /// Takes one line of input. The secret never changes; the session ends
    /// exactly when the line holds the secret.
    pub fn step(&mut self, line: &str) -> (sig: Signal)
        requires
            old(self).wf(),
            !old(self).spec_finished(),
        ensures
            final(self).wf(),
            final(self).spec_secret() == old(self).spec_secret(),
            sig == signal_for(old(self).spec_secret(), line@),
            final(self).spec_finished() == is_win(sig),
    {
        let sig = judge_line(self.secret, line);
        if let Signal::Judged(Outcome::Equal) = sig {
            self.finished = true;
        }
        sig
    }
}

/// Plays a whole session with the given secret on the given lines, and returns
/// the answers in order. Reading stops at the first win.
pub fn play(secret: u32, lines: &Vec<String>) -> (r: Vec<Signal>)
    requires
        valid_secret(secret),
    ensures
        r@ == session_signals(secret, lines@.map_values(|l: String| l@)),
{
    let ghost all = lines@.map_values(|l: String| l@);
    let n = lines.len();
    let mut session = Session::new(secret);
    let mut r: Vec<Signal> = Vec::new();
    let mut i: usize = 0;
    assert(all.subrange(0, n as int) =~= all);
    while i < n
        invariant_except_break
            n == lines@.len(),
            all == lines@.map_values(|l: String| l@),
            i <= n,
            session.wf(),
            session.spec_secret() == secret,
            !session.spec_finished(),
            session_signals(secret, all) == r@ + session_signals(
                secret,
                all.subrange(i as int, n as int),
            ),
        ensures
            r@ == session_signals(secret, all),
        decreases n - i,
    {
        let rest = Ghost(all.subrange(i as int, n as int));
        assert(rest@[0] == lines@[i as int]@);
        assert(rest@.drop_first() =~= all.subrange(i + 1, n as int));
        let sig = session.step(lines[i].as_str());
        r.push(sig);
        if session.is_finished() {
            assert(r@ =~= r@.drop_last() + seq![sig]);
            break;
        }
        assert(r@.drop_last() + (seq![sig] + session_signals(secret, rest@.drop_first())) =~= r@
            + session_signals(secret, rest@.drop_first()));
        i = i + 1;
    }
    proof {
        if i == n {
            assert(r@ + session_signals(secret, all.subrange(n as int, n as int)) =~= r@);
        }
    }
    r
}

#[verifier::external_type_specification]
#[verifier::external_body]
pub struct ExThreadRng(rand::rngs::ThreadRng);

/// Relies on rand::thread_rng: a handle on the random generator of this thread,
/// of which nothing further is promised.
pub assume_specification[ rand::thread_rng ]() -> rand::rngs::ThreadRng;

/// Relies on rand::Rng::gen_range: a value of the half-open range `lo..hi`,
/// which must not be empty (the call panics on an empty range).
#[verifier::external_body]
fn gen_range(rng: &mut rand::rngs::ThreadRng, lo: u32, hi: u32) -> (r: u32)
    requires
        lo < hi,
    ensures
        lo <= r < hi,
{
    rand::Rng::gen_range(rng, lo..hi)
}

} // verus!
