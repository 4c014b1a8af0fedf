use vstd::prelude::*;

use crate::session::{GameState, Score, ScoreModel};

verus! {

/// The colour of the scoreboard's first line.
#[derive(Clone, Copy, Debug, PartialEq, Eq, Structural)]
pub enum ScoreColor {
    Gray,
    Green,
    White,
}

/// The colour that goes with each phase of a game.
pub open spec fn color_of(state: GameState) -> ScoreColor {
    match state {
        GameState::NewGame => ScoreColor::Gray,
        GameState::Started => ScoreColor::Green,
        GameState::GameOver => ScoreColor::White,
    }
}

/// The character of a decimal digit.
pub open spec fn digit_char(d: nat) -> char {
    if d == 0 { '0' }
    else if d == 1 { '1' }
    else if d == 2 { '2' }
    else if d == 3 { '3' }
    else if d == 4 { '4' }
    else if d == 5 { '5' }
    else if d == 6 { '6' }
    else if d == 7 { '7' }
    else if d == 8 { '8' }
    else { '9' }
}

/// A number written in decimal, without leading zeros.
pub open spec fn decimal(n: nat) -> Seq<char>
    decreases n,
{
    if n < 10 {
        seq![digit_char(n)]
    } else {
        decimal(n / 10).push(digit_char(n % 10))
    }
}

/// The word that opens the first line: "GG" once the game is over.
pub open spec fn headline_label(state: GameState) -> Seq<char> {
    if state == GameState::GameOver { "GG"@ } else { "Score"@ }
}

/// The first line of the scoreboard: score, bricks and hammers placed.
pub open spec fn headline_text(s: ScoreModel) -> Seq<char> {
    headline_label(s.state) + ": "@ + decimal(s.value as nat) + " (bricks: "@
        + decimal(s.bricks_created as nat) + ", hammers: "@ + decimal(s.hammers_created as nat)
        + ")\n"@
}

/// The second line of the scoreboard.
pub open spec fn high_score_text(s: ScoreModel) -> Seq<char> {
    "High Score: "@ + decimal(s.high as nat)
}

fn digit_str(d: u64) -> (r: &'static str)
    requires
        d < 10,
    ensures
        r@ == seq![digit_char(d as nat)],
{
    proof {
        reveal_strlit("0");
        reveal_strlit("1");
        reveal_strlit("2");
        reveal_strlit("3");
        reveal_strlit("4");
        reveal_strlit("5");
        reveal_strlit("6");
        reveal_strlit("7");
        reveal_strlit("8");
        reveal_strlit("9");
    }
    match d {
        0 => "0",
        1 => "1",
        2 => "2",
        3 => "3",
        4 => "4",
        5 => "5",
        6 => "6",
        7 => "7",
        8 => "8",
        _ => "9",
    }
}

/// Writes `n` in decimal.
pub fn decimal_string(n: u64) -> (r: String)
    ensures
        r@ == decimal(n as nat),
    decreases n,
{
    if n < 10 {
        String::from_str(digit_str(n))
    } else {
        let head = decimal_string(n / 10);
        head.concat(digit_str(n % 10))
    }
}

impl Score {
    /// The colour of the first line: gray for a new game, green once it has
    /// started, white when it is over.
    pub fn headline_color(&self) -> (r: ScoreColor)
        ensures
            r == color_of(self.state),
    {
        match self.state {
            GameState::NewGame => ScoreColor::Gray,
            GameState::Started => ScoreColor::Green,
            GameState::GameOver => ScoreColor::White,
        }
    }

    /// The first line of the scoreboard, such as
    /// "Score: 3 (bricks: 4, hammers: 2)" and a line break.
    pub fn headline(&self) -> (r: String)
        ensures
            r@ == headline_text(self@),
    {
        let label = match self.state {
            GameState::GameOver => "GG",
            _ => "Score",
        };
        let value = decimal_string(self.value);
        let bricks = decimal_string(self.bricks_created);
        let hammers = decimal_string(self.hammers_created);
        let t = String::from_str(label);
        let t = t.concat(": ");
        let t = t.concat(value.as_str());
        let t = t.concat(" (bricks: ");
        let t = t.concat(bricks.as_str());
        let t = t.concat(", hammers: ");
        let t = t.concat(hammers.as_str());
        let t = t.concat(")\n");
        t
    }

    /// The second line of the scoreboard: "High Score: " and the high score.
    pub fn high_score_line(&self) -> (r: String)
        ensures
            r@ == high_score_text(self@),
    {
        let high = decimal_string(self.high);
        String::from_str("High Score: ").concat(high.as_str())
    }
}

} // verus!
