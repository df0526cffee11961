use vstd::prelude::*;

use crate::entry::{trim_entry, trimmed, guess_of};
use crate::mode::Mode;
use crate::verdict::{reply, respond, Message};

verus! {

/// Relies on rand's `thread_rng` and `Rng::gen_range`: a value in
/// `[low, high)`; `gen_range` panics unless `low < high`.
#[verifier::external_body]
fn random_in(low: u32, high: u32) -> (r: u32)
    requires
        low < high,
    ensures
        low <= r < high,
{
    rand::Rng::gen_range(&mut rand::thread_rng(), low, high)
}

/// Draws a secret at random between 1 and the largest secret of the mode.
pub fn draw_secret(mode: Mode) -> (r: u32)
    ensures
        1 <= r <= mode.max_secret(),
        mode == Mode::Hard ==> 1 <= r <= 100,
        mode == Mode::Normal ==> 1 <= r <= 50,
{
    random_in(1, mode.upper_bound() + 1)
}

/// What a game holds: the mode, the secret once drawn, whether a round is
/// on (guessing is enabled), and the message shown.
pub struct GameState {
    pub mode: Mode,
    pub secret: Option<u32>,
    pub playing: bool,
    pub message: Message,
}

/// The state of one game window, changed by the window's events: the mode
/// switch, the start and stop buttons, and a guess.
pub struct Game {
    mode: Mode,
    secret: Option<u32>,
    playing: bool,
    message: Message,
}

impl View for Game {
    type V = GameState;

    closed spec fn view(&self) -> GameState {
        GameState {
            mode: self.mode,
            secret: self.secret,
            playing: self.playing,
            message: self.message,
        }
    }
}

impl Game {
    #[verifier::type_invariant]
    spec fn inv(self) -> bool {
        self.playing ==> self.secret is Some
    }

    /// A game before its first round: normal mode, no secret, the welcome
    /// message.
    pub fn new() -> (g: Game)
        ensures
            g@ == (GameState {
                mode: Mode::Normal,
                secret: None,
                playing: false,
                message: Message::Welcome,
            }),
    {
        Game { mode: Mode::Normal, secret: None, playing: false, message: Message::Welcome }
    }

    /// The mode switch was turned on (hard) or off (normal). Returns the
    /// title that announces the new mode. A round under way keeps its secret.
    pub fn switch_mode(&mut self, active: bool) -> (title: &'static str)
        ensures
            final(self)@ == (GameState { mode: if active { Mode::Hard } else { Mode::Normal }, ..old(self)@ }),
            title@ == crate::mode::title_text(final(self)@.mode),
    {
        proof {
            use_type_invariant(&*self);
        }
        self.mode = Mode::from_switch(active);
        self.mode.title()
    }

    /// Starts a round on a given secret.
    pub fn begin(&mut self, secret: u32)
        ensures
            final(self)@ == (GameState { secret: Some(secret), playing: true, ..old(self)@ }),
    {
        self.secret = Some(secret);
        self.playing = true;
    }

    /// Starts a round on a secret drawn at random for the current mode.
    pub fn start(&mut self)
        ensures
            final(self)@.mode == old(self)@.mode,
            final(self)@.message == old(self)@.message,
            final(self)@.playing,
            final(self)@.secret is Some,
            1 <= final(self)@.secret->Some_0 <= old(self)@.mode.max_secret(),
    {
        let secret = draw_secret(self.mode);
        self.begin(secret);
    }

    /// Ends the round: guessing is disabled, the secret is kept.
    pub fn stop(&mut self)
        ensures
            final(self)@ == (GameState { playing: false, ..old(self)@ }),
    {
        self.playing = false;
    }

    /// Answers the text of the entry during a round, and shows the answer.
    /// Surrounding white space is ignored; the secret never changes.
    pub fn guess(&mut self, entry: &str) -> (r: Message)
        requires
            old(self)@.playing,
        ensures
            old(self)@.secret is Some,
            r == reply(trimmed(entry@), old(self)@.secret->Some_0),
            guess_of(trimmed(entry@)) is None ==> r == Message::NotANumber,
            final(self)@.secret == old(self)@.secret,
            final(self)@ == (GameState { message: r, ..old(self)@ }),
    {
        proof {
            use_type_invariant(&*self);
        }
        let secret = match self.secret {
            Some(s) => s,
            None => 0,
        };
        let r = respond(trim_entry(entry), secret);
        self.message = r;
        r
    }

    /// The current mode.
    pub fn mode(&self) -> (r: Mode)
        ensures
            r == self@.mode,
    {
        self.mode
    }

    /// The secret of the current or last round, if one was drawn.
    pub fn secret(&self) -> (r: Option<u32>)
        ensures
            r == self@.secret,
    {
        self.secret
    }

    /// Whether a round is on, so that guessing is enabled; a secret has then
    /// been drawn.
    pub fn is_playing(&self) -> (r: bool)
        ensures
            r == self@.playing,
            r ==> self@.secret is Some,
    {
        proof {
            use_type_invariant(self);
        }
        self.playing
    }

    /// The message shown to the player.
    pub fn message(&self) -> (r: Message)
        ensures
            r == self@.message,
    {
        self.message
    }
}

} // verus!
