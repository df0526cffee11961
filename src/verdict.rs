use vstd::prelude::*;

use crate::entry::{guess_of, parse_guess};

verus! {

/// What the game window tells the player.
#[derive(Clone, Copy, Debug, PartialEq, Eq, Structural)]
pub enum Message {
    /// Shown before the first guess.
    Welcome,
    /// The entry holds no number.
    NotANumber,
    /// The guess is below the secret.
    TooSmall,
    /// The guess is above the secret.
    TooBig,
    /// The guess is the secret.
    Win,
}

/// The words that stand for each message.
pub open spec fn message_text(m: Message) -> Seq<char> {
    match m {
        Message::Welcome => "Let's play"@,
        Message::NotANumber => "Please enter a number"@,
        Message::TooSmall => "Too small!"@,
        Message::TooBig => "Too big!"@,
        Message::Win => "You win! Congratulations"@,
    }
}

impl Message {
    /// The words shown to the player for this message.
    pub fn text(&self) -> (r: &'static str)
        ensures
            r@ == message_text(*self),
    {
        match self {
            Message::Welcome => "Let's play",
            Message::NotANumber => "Please enter a number",
            Message::TooSmall => "Too small!",
            Message::TooBig => "Too big!",
            Message::Win => "You win! Congratulations",
        }
    }
}

/// The verdict on a number guessed against the secret.
pub open spec fn verdict(guess: u32, secret: u32) -> Message {
    if guess < secret {
        Message::TooSmall
    } else if guess > secret {
        Message::TooBig
    } else {
        Message::Win
    }
}

/// The reply to an entry text, once its surrounding white space is gone.
pub open spec fn reply(text: Seq<char>, secret: u32) -> Message {
    match guess_of(text) {
        Some(g) => verdict(g, secret),
        None => Message::NotANumber,
    }
}

/// Compares a guess with the secret.
pub fn judge(guess: u32, secret: u32) -> (r: Message)
    ensures
        r == verdict(guess, secret),
        r == Message::TooSmall <==> guess < secret,
        r == Message::TooBig <==> guess > secret,
        r == Message::Win <==> guess == secret,
{
    if guess < secret {
        Message::TooSmall
    } else if guess > secret {
        Message::TooBig
    } else {
        Message::Win
    }
}

/// Answers an entry text that has no surrounding white space: the verdict on
/// the number it writes, or a request for a number where it writes none.
pub fn respond(text: &str, secret: u32) -> (r: Message)
    ensures
        r == reply(text@, secret),
        r == Message::NotANumber <==> guess_of(text@) is None,
{
    match parse_guess(text) {
        Some(g) => judge(g, secret),
        None => Message::NotANumber,
    }
}

} // verus!
