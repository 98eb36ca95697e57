//! The text of the scoreboard.

use vstd::prelude::*;
use vstd::string::StringExecFns;

verus! {

/// The number of spaces between the two scores.
pub const SCORE_GAP: usize = 13;

/// The character of a decimal digit.
pub open spec fn digit_char(digit: int) -> char {
    if digit == 0 {
        '0'
    } else if digit == 1 {
        '1'
    } else if digit == 2 {
        '2'
    } else if digit == 3 {
        '3'
    } else if digit == 4 {
        '4'
    } else if digit == 5 {
        '5'
    } else if digit == 6 {
        '6'
    } else if digit == 7 {
        '7'
    } else if digit == 8 {
        '8'
    } else {
        '9'
    }
}

/// A natural number in decimal, without leading zeros.
pub open spec fn decimal_digits(n: nat) -> Seq<char>
    decreases n,
{
    if n < 10 {
        seq![digit_char(n as int)]
    } else {
        decimal_digits(n / 10).push(digit_char((n % 10) as int))
    }
}

/// An integer in decimal, with a minus sign before a negative one.
pub open spec fn decimal(n: int) -> Seq<char> {
    if n < 0 {
        seq!['-'] + decimal_digits((-n) as nat)
    } else {
        decimal_digits(n as nat)
    }
}

/// A run of `n` spaces.
pub open spec fn spaces(n: nat) -> Seq<char> {
    Seq::new(n, |i: int| ' ')
}

/// The scoreboard: the first player's score, the gap, the second player's
/// score.
pub open spec fn score_line(score_1: int, score_2: int) -> Seq<char> {
    decimal(score_1) + spaces(SCORE_GAP as nat) + decimal(score_2)
}

/// The text of one decimal digit.
fn digit_text(digit: u32) -> (text: &'static str)
    requires
        digit < 10,
    ensures
        text@ == seq![digit_char(digit as int)],
{
    proof {
        reveal_strlit("0");
        reveal_strlit("1");
        reveal_strlit("2");
        reveal_strlit("3");
        reveal_strlit("4");
        reveal_strlit("5");
        reveal_strlit("6");
        reveal_strlit("7");
        reveal_strlit("8");
        reveal_strlit("9");
    }
    let text = if digit == 0 {
        "0"
    } else if digit == 1 {
        "1"
    } else if digit == 2 {
        "2"
    } else if digit == 3 {
        "3"
    } else if digit == 4 {
        "4"
    } else if digit == 5 {
        "5"
    } else if digit == 6 {
        "6"
    } else if digit == 7 {
        "7"
    } else if digit == 8 {
        "8"
    } else {
        "9"
    };
    assert(text@ =~= seq![digit_char(digit as int)]);
    text
}

/// Appends `n` in decimal to `text`.
fn append_digits(text: &mut String, n: u32)
    ensures
        final(text)@ == old(text)@ + decimal_digits(n as nat),
    decreases n,
{
    if n >= 10 {
        append_digits(text, n / 10);
    }
    text.append(digit_text(n % 10));
    assert(text@ =~= old(text)@ + decimal_digits(n as nat));
}

/// Appends `n` in decimal to `text`, with its sign if it is negative.
pub fn append_decimal(text: &mut String, n: i32)
    ensures
        final(text)@ == old(text)@ + decimal(n as int),
{
    if n < 0 {
        proof {
            reveal_strlit("-");
        }
        text.append("-");
        let magnitude: i64 = -(n as i64);
        append_digits(text, magnitude as u32);
        assert(text@ =~= old(text)@ + decimal(n as int));
    } else {
        append_digits(text, n as u32);
    }
}

/// Appends `n` spaces to `text`.
fn append_spaces(text: &mut String, n: usize)
    ensures
        final(text)@ == old(text)@ + spaces(n as nat),
{
    let mut done: usize = 0;
    assert(text@ =~= old(text)@ + spaces(0));
    while done < n
        invariant
            done <= n,
            text@ == old(text)@ + spaces(done as nat),
        decreases n - done,
    {
        proof {
            reveal_strlit(" ");
        }
        text.append(" ");
        done = done + 1;
        assert(text@ =~= old(text)@ + spaces(done as nat));
    }
}

/// The text of the scoreboard: the two scores in decimal, left to right,
/// with the gap between them.
pub fn score_text(player_1_score: i32, player_2_score: i32) -> (text: String)
    ensures
        text@ == score_line(player_1_score as int, player_2_score as int),
{
    let mut text = String::new();
    append_decimal(&mut text, player_1_score);
    append_spaces(&mut text, SCORE_GAP);
    append_decimal(&mut text, player_2_score);
    assert(text@ =~= score_line(player_1_score as int, player_2_score as int));
    text
}

/// The scoreboard is as long as the two numbers and the gap, and the gap
/// holds nothing but spaces.
pub proof fn lemma_score_line_layout(score_1: int, score_2: int)
    ensures
        score_line(score_1, score_2).len() == decimal(score_1).len() + SCORE_GAP + decimal(
            score_2,
        ).len(),
        score_line(score_1, score_2).subrange(0, decimal(score_1).len() as int) == decimal(
            score_1,
        ),
        forall|i: int|
            decimal(score_1).len() <= i < decimal(score_1).len() + SCORE_GAP ==> score_line(
                score_1,
                score_2,
            )[i] == ' ',
{
    assert(score_line(score_1, score_2).subrange(0, decimal(score_1).len() as int) =~= decimal(
        score_1,
    ));
}

} // verus!
