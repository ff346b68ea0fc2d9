use vstd::prelude::*;
use vstd::string::StringExecFns;

verus! {

/// What the score line shows.
#[derive(Clone, Copy, Debug, PartialEq, Eq, Structural)]
pub enum Score {
    /// The number of rows placed so far, while the game goes on.
    Rows(u32),
    /// The game was lost.
    GameOver,
    /// The game was won, with this many rows placed.
    Won(u32),
}

/// The character that stands for a digit.
pub open spec fn digit(d: nat) -> char
    recommends
        d < 10,
{
    if d == 0 {
        '0'
    } else if d == 1 {
        '1'
    } else if d == 2 {
        '2'
    } else if d == 3 {
        '3'
    } else if d == 4 {
        '4'
    } else if d == 5 {
        '5'
    } else if d == 6 {
        '6'
    } else if d == 7 {
        '7'
    } else if d == 8 {
        '8'
    } else {
        '9'
    }
}

/// A number written in decimal, without leading zeros.
pub open spec fn decimal(n: nat) -> Seq<char>
    decreases n,
{
    if n < 10 {
        seq![digit(n)]
    } else {
        decimal(n / 10).push(digit(n % 10))
    }
}

fn digit_text(d: u32) -> (text: &'static str)
    requires
        d < 10,
    ensures
        text@ == seq![digit(d as nat)],
{
    proof {
        reveal_strlit("0");
        reveal_strlit("1");
        reveal_strlit("2");
        reveal_strlit("3");
        reveal_strlit("4");
        reveal_strlit("5");
        reveal_strlit("6");
        reveal_strlit("7");
        reveal_strlit("8");
        reveal_strlit("9");
    }
    let text: &'static str = if d == 0 {
        "0"
    } else if d == 1 {
        "1"
    } else if d == 2 {
        "2"
    } else if d == 3 {
        "3"
    } else if d == 4 {
        "4"
    } else if d == 5 {
        "5"
    } else if d == 6 {
        "6"
    } else if d == 7 {
        "7"
    } else if d == 8 {
        "8"
    } else {
        "9"
    };
    assert(text@ =~= seq![digit(d as nat)]);
    text
}

/// Writes `n` in decimal at the end of `text`.
pub fn push_decimal(text: &mut String, n: u32)
    ensures
        final(text)@ == old(text)@ + decimal(n as nat),
    decreases n,
{
    if n >= 10 {
        push_decimal(text, n / 10);
    }
    text.append(digit_text(n % 10));
    assert(text@ =~= old(text)@ + decimal(n as nat));
}

impl Score {
    /// The score line: `Score: N` while the game goes on, `Score: Game Over`
    /// after a loss, `Score: N`, a dash and `You Won` after a win, where N is
    /// the number of rows placed.
    pub open spec fn line(self) -> Seq<char> {
        match self {
            Score::Rows(n) => "Score: "@ + decimal(n as nat),
            Score::GameOver => "Score: Game Over"@,
            Score::Won(n) => "Score: "@ + decimal(n as nat) + " \u{2014} You Won"@,
        }
    }

    /// Writes the score line.
    pub fn text(&self) -> (line: String)
        ensures
            line@ == self.line(),
    {
        match self {
            Score::Rows(n) => {
                let mut line: String = String::from_str("Score: ");
                push_decimal(&mut line, *n);
                line
            },
            Score::GameOver => String::from_str("Score: Game Over"),
            Score::Won(n) => {
                let mut line: String = String::from_str("Score: ");
                push_decimal(&mut line, *n);
                line.append(" \u{2014} You Won");
                line
            },
        }
    }
}

} // verus!
