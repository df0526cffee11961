use vstd::prelude::*;

verus! {

/// How hard a round is: the largest number that the secret may be.
#[derive(Clone, Copy, Debug, PartialEq, Eq, Structural)]
pub enum Mode {
    Normal,
    Hard,
}

/// The header title that announces a mode.
pub open spec fn title_text(m: Mode) -> Seq<char> {
    match m {
        Mode::Normal => "Game Mode (1-50): Normal!"@,
        Mode::Hard => "Game Mode (1-100): HARD!"@,
    }
}

impl Mode {
    /// The largest secret that a round in this mode draws.
    pub open spec fn max_secret(self) -> nat {
        match self {
            Mode::Normal => 50,
            Mode::Hard => 100,
        }
    }

    /// The mode that the switch selects: on is hard, off is normal.
    pub fn from_switch(active: bool) -> (m: Mode)
        ensures
            active ==> m == Mode::Hard,
            !active ==> m == Mode::Normal,
    {
        if active {
            Mode::Hard
        } else {
            Mode::Normal
        }
    }

    /// The largest secret that a round in this mode draws.
    pub fn upper_bound(&self) -> (r: u32)
        ensures
            r == self.max_secret(),
    {
        match self {
            Mode::Normal => 50,
            Mode::Hard => 100,
        }
    }

    /// The header title that announces this mode.
    pub fn title(&self) -> (r: &'static str)
        ensures
            r@ == title_text(*self),
    {
        match self {
            Mode::Normal => "Game Mode (1-50): Normal!",
            Mode::Hard => "Game Mode (1-100): HARD!",
        }
    }
}

} // verus!
