//! The number-guessing game: a secret drawn once from 1 to 100, and a
//! transition function that takes one line of input at a time.
//!
//! The caller owns the input and output: it hands each line to
//! [`Game::play`] and reports the [`Reply`] it gets back, until the game is
//! won.

use vstd::prelude::*;
use rand::Rng;
use crate::text::{
    decimal_text, is_unsigned_text, lemma_parse_decimal_text, parse_guess, parse_u32_of, trimmed,
};

verus! {

/// The smallest secret that can be drawn.
pub const LOWEST: u32 = 1;

/// The largest secret that can be drawn.
pub const HIGHEST: u32 = 100;

/// How a parsed guess compares with the secret.
#[derive(Debug, Clone, Copy, PartialEq, Eq, Structural)]
pub enum Feedback {
    TooSmall,
    TooBig,
    Win,
}

/// What one line of input led to.
#[derive(Debug, Clone, Copy, PartialEq, Eq, Structural)]
pub enum Reply {
    /// The line did not hold a whole number; it is dropped without comment.
    Discarded,
    /// The line held `guess`, which compares with the secret as `feedback`.
    Judged { guess: u32, feedback: Feedback },
}

/// The abstract state of a game.
pub struct GameState {
    pub secret: u32,
    pub won: bool,
}

pub open spec fn feedback_of(guess: u32, secret: u32) -> Feedback {
    if guess < secret {
        Feedback::TooSmall
    } else if guess > secret {
        Feedback::TooBig
    } else {
        Feedback::Win
    }
}

/// The reply that a line earns against `secret`.
pub open spec fn reply_of(secret: u32, line: Seq<char>) -> Reply {
    match parse_u32_of(trimmed(line)) {
        Some(g) => Reply::Judged { guess: g, feedback: feedback_of(g, secret) },
        None => Reply::Discarded,
    }
}

impl GameState {
    /// A secret in range; it never changes afterwards.
    pub open spec fn wf(self) -> bool {
        LOWEST <= self.secret <= HIGHEST
    }

    /// The state after one line of input has been played.
    pub open spec fn after(self, line: Seq<char>) -> GameState {
        GameState {
            secret: self.secret,
            won: self.won || reply_of(self.secret, line) == (Reply::Judged {
                guess: self.secret,
                feedback: Feedback::Win,
            }),
        }
    }

    /// The state after a sequence of lines; once the game is won no further
    /// line is read.
    pub open spec fn after_all(self, lines: Seq<Seq<char>>) -> GameState
        decreases lines.len(),
    {
        if self.won || lines.len() == 0 {
            self
        } else {
            self.after(lines[0]).after_all(lines.drop_first())
        }
    }
}

/// A game in progress or won.
pub struct Game {
    secret: u32,
    won: bool,
}

impl View for Game {
    type V = GameState;

    closed spec fn view(&self) -> GameState {
        GameState { secret: self.secret, won: self.won }
    }
}

/// Relies on `rand::thread_rng` and `Rng::gen_range`: a value drawn from the
/// inclusive range `low..=high`, which must not be empty.
#[verifier::external_body]
fn random_in_range(low: u32, high: u32) -> (r: u32)
    requires
        low <= high,
    ensures
        low <= r <= high,
{
    rand::thread_rng().gen_range(low..=high)
}

/// Compares a guess with the secret.
pub fn compare_guess(guess: u32, secret: u32) -> (r: Feedback)
    ensures
        r == feedback_of(guess, secret),
        r == Feedback::TooSmall <==> guess < secret,
        r == Feedback::TooBig <==> guess > secret,
        r == Feedback::Win <==> guess == secret,
{
    if guess < secret {
        Feedback::TooSmall
    } else if guess > secret {
        Feedback::TooBig
    } else {
        Feedback::Win
    }
}

/// A player who types the secret, written in decimal, wins with that one
/// guess.
pub proof fn lemma_secret_wins_at_once(n: u32)
    requires
        LOWEST <= n <= HIGHEST,
    ensures
        reply_of(n, decimal_text(n as nat)) == (Reply::Judged { guess: n, feedback: Feedback::Win }),
        (GameState { secret: n, won: false }).after(decimal_text(n as nat)).won,
        (GameState { secret: n, won: false }).after_all(seq![decimal_text(n as nat)])
            == (GameState { secret: n, won: true }),
{
    lemma_parse_decimal_text(n);
    let g = GameState { secret: n, won: false };
    assert(seq![decimal_text(n as nat)].drop_first() =~= Seq::<Seq<char>>::empty());
    assert(g.after(decimal_text(n as nat)).after_all(Seq::<Seq<char>>::empty()) == g.after(
        decimal_text(n as nat),
    ));
}

/// A line whose trimmed text is not an optional `+` followed by decimal
/// digits is discarded: no feedback, and the game goes on as it was.
pub proof fn lemma_non_numeric_discarded(g: GameState, line: Seq<char>)
    requires
        !is_unsigned_text(trimmed(line)),
    ensures
        reply_of(g.secret, line) == Reply::Discarded,
        g.after(line) == g,
{
}

/// Feeding the same unreadable line any number of times leaves the secret as
/// it was and never ends the game.
pub proof fn lemma_repeated_invalid_input(g: GameState, line: Seq<char>, k: nat)
    requires
        parse_u32_of(trimmed(line)) is None,
    ensures
        g.after_all(Seq::new(k, |_i: int| line)) == g,
    decreases k,
{
    let lines = Seq::new(k, |_i: int| line);
    if k > 0 && !g.won {
        assert(lines.drop_first() =~= Seq::new((k - 1) as nat, |_i: int| line));
        assert(g.after(line) == g);
        lemma_repeated_invalid_input(g, line, (k - 1) as nat);
    }
}

impl Game {
    /// Starts a game with a secret drawn at random from `LOWEST..=HIGHEST`.
    pub fn start() -> (r: Game)
        ensures
            r@.wf(),
            !r@.won,
    {
        Game { secret: random_in_range(LOWEST, HIGHEST), won: false }
    }

    /// Starts a game with a given secret.
    pub fn with_secret(secret: u32) -> (r: Game)
        requires
            LOWEST <= secret <= HIGHEST,
        ensures
            r@ == (GameState { secret, won: false }),
    {
        Game { secret, won: false }
    }

    /// The number to be guessed.
    pub fn secret(&self) -> (r: u32)
        ensures
            r == self@.secret,
    {
        self.secret
    }

    /// Whether the secret has been guessed.
    pub fn is_won(&self) -> (r: bool)
        ensures
            r == self@.won,
    {
        self.won
    }

    /// Plays one line of input: a line that holds no whole number is
    /// discarded; otherwise the guess is judged, and a right guess wins.
    pub fn play(&mut self, line: &str) -> (r: Reply)
        requires
            !old(self)@.won,
        ensures
            r == reply_of(old(self)@.secret, line@),
            final(self)@ == old(self)@.after(line@),
    {
        match parse_guess(line) {
            None => Reply::Discarded,
            Some(guess) => {
                let feedback = compare_guess(guess, self.secret);
                if feedback == Feedback::Win {
                    self.won = true;
                }
                Reply::Judged { guess, feedback }
            },
        }
    }
}

} // verus!
