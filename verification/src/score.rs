use vstd::prelude::*;
use vstd::string::StringExecFns;
use crate::player::PlayerAlive;
use crate::units::NANOS_PER_SECOND;

verus! {

/// The score: the time played, in nanoseconds, and the number of whole
/// seconds on display. Nothing is on display until the first update.
#[derive(Clone, Copy, Debug, PartialEq, Eq, Structural)]
pub struct Score {
    pub elapsed: u64,
    pub shown: Option<u64>,
}

/// The prompt of the main menu.
#[derive(Clone, Copy, Debug, PartialEq, Eq, Structural)]
pub struct MenuText;

/// The character of a decimal digit.
pub open spec fn digit_char(digit: int) -> char {
    if digit == 0 {
        '0'
    } else if digit == 1 {
        '1'
    } else if digit == 2 {
        '2'
    } else if digit == 3 {
        '3'
    } else if digit == 4 {
        '4'
    } else if digit == 5 {
        '5'
    } else if digit == 6 {
        '6'
    } else if digit == 7 {
        '7'
    } else if digit == 8 {
        '8'
    } else {
        '9'
    }
}

/// The decimal digits of `n`, without leading zeros.
pub open spec fn decimal(n: nat) -> Seq<char>
    decreases n,
{
    if n < 10 {
        seq![digit_char(n as int)]
    } else {
        decimal(n / 10).push(digit_char((n % 10) as int))
    }
}

/// How a number of seconds is displayed: in five digits, with leading
/// zeros, where five digits hold it; in all its digits where they do not.
pub open spec fn score_text(seconds: nat) -> Seq<char> {
    if seconds < 100_000 {
        seq![
            digit_char((seconds / 10_000) as int),
            digit_char((seconds / 1_000 % 10) as int),
            digit_char((seconds / 100 % 10) as int),
            digit_char((seconds / 10 % 10) as int),
            digit_char((seconds % 10) as int),
        ]
    } else {
        decimal(seconds)
    }
}

impl Score {
    /// The score at the start of a round: no time played, nothing on
    /// display.
    pub open spec fn spec_new() -> Score {
        Score { elapsed: 0, shown: None }
    }

    /// The score after `delta` more nanoseconds of play: the time is added
    /// and the whole seconds of the sum go on display.
    pub open spec fn updated(self, delta: u64) -> Score {
        Score {
            elapsed: (self.elapsed + delta) as u64,
            shown: Some(((self.elapsed + delta) / NANOS_PER_SECOND as int) as u64),
        }
    }

    /// The text on display: empty before the first update, then the whole
    /// seconds as `score_text` writes them.
    pub open spec fn spec_text(self) -> Seq<char> {
        match self.shown {
            Some(seconds) => score_text(seconds as nat),
            None => Seq::empty(),
        }
    }

    /// Returns the score at the start of a round.
    pub fn new() -> (score: Score)
        ensures
            score == Score::spec_new(),
    {
        Score { elapsed: 0, shown: None }
    }

    /// Returns the text on display.
    pub fn text(&self) -> (text: String)
        ensures
            text@ == self.spec_text(),
    {
        match self.shown {
            Some(seconds) => format_score(seconds),
            None => String::new(),
        }
    }
}

impl MenuText {
    /// Returns the text of the prompt.
    pub fn text(&self) -> (text: &'static str)
        ensures
            text@ == "<Press Enter>"@,
    {
        "<Press Enter>"
    }
}

/// Returns the label that stands before the score.
pub fn score_label() -> (label: &'static str)
    ensures
        label@ == "Score: "@,
{
    "Score: "
}

/// Returns the one-character string of a decimal digit.
fn digit_str(digit: u64) -> (s: &'static str)
    requires
        digit < 10,
    ensures
        s@ == seq![digit_char(digit as int)],
{
    proof {
        reveal_strlit("0");
        reveal_strlit("1");
        reveal_strlit("2");
        reveal_strlit("3");
        reveal_strlit("4");
        reveal_strlit("5");
        reveal_strlit("6");
        reveal_strlit("7");
        reveal_strlit("8");
        reveal_strlit("9");
    }
    let s = if digit == 0 {
        "0"
    } else if digit == 1 {
        "1"
    } else if digit == 2 {
        "2"
    } else if digit == 3 {
        "3"
    } else if digit == 4 {
        "4"
    } else if digit == 5 {
        "5"
    } else if digit == 6 {
        "6"
    } else if digit == 7 {
        "7"
    } else if digit == 8 {
        "8"
    } else {
        "9"
    };
    assert(s@ =~= seq![digit_char(digit as int)]);
    s
}

/// Appends the decimal digits of `n` to `text`.
fn push_decimal(text: &mut String, n: u64)
    ensures
        final(text)@ == old(text)@ + decimal(n as nat),
    decreases n,
{
    if n >= 10 {
        push_decimal(text, n / 10);
    }
    text.append(digit_str(n % 10));
    proof {
        if n >= 10 {
            assert(text@ =~= old(text)@ + decimal((n / 10) as nat).push(digit_char((n % 10) as int)));
        } else {
            assert(text@ =~= old(text)@ + seq![digit_char(n as int)]);
        }
    }
}

/// Writes a number of seconds as the score displays it.
pub fn format_score(seconds: u64) -> (text: String)
    ensures
        text@ == score_text(seconds as nat),
{
    let mut text = String::new();
    if seconds < 100_000 {
        text.append(digit_str(seconds / 10_000));
        text.append(digit_str(seconds / 1_000 % 10));
        text.append(digit_str(seconds / 100 % 10));
        text.append(digit_str(seconds / 10 % 10));
        text.append(digit_str(seconds % 10));
        assert(text@ =~= score_text(seconds as nat));
    } else {
        push_decimal(&mut text, seconds);
        assert(text@ =~= score_text(seconds as nat));
    }
    text
}

/// Creates the score of a new round, whatever the slot held.
pub fn score_spawn(query: &mut Option<Score>)
    ensures
        *final(query) == Some(Score::spec_new()),
{
    *query = Some(Score::new());
}

/// The score slot after `update_score`.
pub open spec fn after_update_score(query: Option<Score>, delta: u64, alive: PlayerAlive) -> Option<
    Score,
> {
    match query {
        Some(score) => if alive.0 {
            Some(score.updated(delta))
        } else {
            query
        },
        None => None,
    }
}

/// Adds `delta` nanoseconds to the score and brings the display up to
/// date. Without a score, or while the player is not alive, nothing
/// happens.
pub fn update_score(delta: u64, query: &mut Option<Score>, player_alive: &PlayerAlive)
    requires
        player_alive.0 ==> (*old(query) matches Some(score) ==> score.elapsed + delta <= u64::MAX),
    ensures
        *final(query) == after_update_score(*old(query), delta, *player_alive),
{
    if !player_alive.0 {
        return ;
    }
    match *query {
        Some(score) => {
            let elapsed: u64 = score.elapsed + delta;
            *query = Some(Score { elapsed, shown: Some(elapsed / NANOS_PER_SECOND) });
        },
        None => {},
    }
}

/// Removes the score.
pub fn score_cleanup(query: &mut Option<Score>)
    ensures
        *final(query) == None::<Score>,
{
    *query = None;
}

/// Shows the prompt of the main menu.
pub fn menu_text_spawn(query: &mut Option<MenuText>)
    ensures
        *final(query) == Some(MenuText),
{
    *query = Some(MenuText);
}

/// Removes the prompt of the main menu.
pub fn menu_text_cleanup(text_query: &mut Option<MenuText>)
    ensures
        *final(text_query) == None::<MenuText>,
{
    *text_query = None;
}

} // verus!
