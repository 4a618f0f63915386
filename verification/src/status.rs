//! Game state: the win check and the display text the host renders — the
//! running score while the game is ongoing, a fixed terminal string once it
//! has been won or lost.
use vstd::prelude::*;

use vstd::string::StringExecFns;

use crate::world::{GameStatus, World, WorldView};

verus! {

/// The world after the win check: a game still ongoing with no enemy left is
/// won.  A terminal status is never overwritten.
pub open spec fn spec_check_for_win(w: WorldView) -> WorldView {
    if w.enemies.len() == 0 && w.status is Ongoing {
        WorldView { status: GameStatus::Won, ..w }
    } else {
        w
    }
}

/// The decimal digit character for `d` in `0 ..= 9`.
pub open spec fn spec_digit(d: int) -> char {
    if d == 0 {
        '0'
    } else if d == 1 {
        '1'
    } else if d == 2 {
        '2'
    } else if d == 3 {
        '3'
    } else if d == 4 {
        '4'
    } else if d == 5 {
        '5'
    } else if d == 6 {
        '6'
    } else if d == 7 {
        '7'
    } else if d == 8 {
        '8'
    } else {
        '9'
    }
}

/// The decimal digits of `n`, most significant first.
pub open spec fn spec_decimal(n: int) -> Seq<char>
    decreases n,
{
    if n < 10 {
        seq![spec_digit(n)]
    } else {
        spec_decimal(n / 10).push(spec_digit(n % 10))
    }
}

/// The text shown to the player: the score while ongoing, a fixed message
/// once the game has ended.
pub open spec fn spec_display(w: WorldView) -> Seq<char> {
    match w.status {
        GameStatus::Ongoing => spec_decimal(w.score as int),
        GameStatus::Won => "you won!"@,
        GameStatus::Lost => "you lost!"@,
    }
}

/// One decimal digit as text.
fn digit_str(d: u32) -> (s: &'static str)
    requires
        d < 10,
    ensures
        s@ == seq![spec_digit(d as int)],
{
    proof {
        reveal_strlit("0");
        reveal_strlit("1");
        reveal_strlit("2");
        reveal_strlit("3");
        reveal_strlit("4");
        reveal_strlit("5");
        reveal_strlit("6");
        reveal_strlit("7");
        reveal_strlit("8");
        reveal_strlit("9");
    }
    let s = match d {
        0 => "0",
        1 => "1",
        2 => "2",
        3 => "3",
        4 => "4",
        5 => "5",
        6 => "6",
        7 => "7",
        8 => "8",
        _ => "9",
    };
    proof {
        assert(s@ =~= seq![spec_digit(d as int)]);
    }
    s
}

/// Render `n` in decimal.
pub fn u32_to_string(n: u32) -> (s: String)
    ensures
        s@ == spec_decimal(n as int),
    decreases n,
{
    if n < 10 {
        digit_str(n).to_owned()
    } else {
        let mut s = u32_to_string(n / 10);
        s.append(digit_str(n % 10));
        proof {
            assert(s@ =~= spec_decimal((n / 10) as int).push(spec_digit((n % 10) as int)));
        }
        s
    }
}

impl World {
    /// Declare the game won once no enemy is left, unless it already ended.
    pub fn check_for_win(&mut self)
        ensures
            final(self)@ == spec_check_for_win(old(self)@),
    {
        if self.enemies.len() == 0 {
            match self.status {
                GameStatus::Ongoing => {
                    self.status = GameStatus::Won;
                },
                _ => {},
            }
        }
        proof {
            assert(self@ =~= spec_check_for_win(old(self)@));
        }
    }

    /// The text the presentation layer shows this frame: the numeric score
    /// while the game is ongoing, or the fixed end-of-game message.
    pub fn display_text(&self) -> (s: String)
        ensures
            s@ == spec_display(self@),
    {
        match self.status {
            GameStatus::Ongoing => u32_to_string(self.score),
            GameStatus::Won => "you won!".to_owned(),
            GameStatus::Lost => "you lost!".to_owned(),
        }
    }
}

} // verus!
