//! Small decisions behind what a page shows.

use crate::links::{decimal, decimal_text, digit_text};
use vstd::prelude::*;
use vstd::string::StringExecFns;

verus! {

/// Half-stars in a row of stars.
pub const HALF_STARS: usize = 10;

/// Empty slots that fill a listing up to a full page.
pub open spec fn slots_left(room: usize, shown: usize) -> usize {
    if shown < room {
        (room - shown) as usize
    } else {
        0
    }
}

/// Counts the empty slots that fill a listing up to a full page.
pub fn placeholders(room: usize, shown: usize) -> (left: usize)
    ensures
        left == slots_left(room, shown),
{
    if shown < room {
        room - shown
    } else {
        0
    }
}

/// Which of the ten half-stars a rating lights: the first `rating` of
/// them.
pub open spec fn lit_stars(rating: i16) -> Seq<bool> {
    Seq::new(HALF_STARS as nat, |k: int| k + 1 <= rating)
}

/// Lays out the half-stars of a rating.
pub fn stars(rating: i16) -> (lit: Vec<bool>)
    ensures
        lit@ == lit_stars(rating),
{
    let mut lit: Vec<bool> = Vec::new();
    let mut position: i16 = 1;
    while position <= 10
        invariant
            1 <= position <= 11,
            lit.len() == position - 1,
            forall|k: int| 0 <= k < lit.len() ==> lit[k] == (k + 1 <= rating),
        decreases 11 - position,
    {
        lit.push(position <= rating);
        position += 1;
    }
    assert(lit@ =~= lit_stars(rating));
    lit
}

/// Whether a viewer's own rating is shown with the option to withdraw it:
/// the viewer has rated the item.
pub fn has_rating(rating: Option<i16>) -> (rated: bool)
    ensures
        rated == (rating is Some && rating->0 != 0),
{
    match rating {
        Some(value) => value != 0,
        None => false,
    }
}

/// A score, kept in hundredths, written with two decimals.
pub open spec fn score_digits(hundredths: nat) -> Seq<char> {
    decimal_text(hundredths / 100) + "."@ + digit_text(hundredths / 10 % 10) + digit_text(
        hundredths % 10,
    )
}

/// The text of a score: its digits, after a minus sign if it is negative.
pub open spec fn score_text(hundredths: i32) -> Seq<char> {
    if hundredths < 0 {
        "-"@ + score_digits((-hundredths) as nat)
    } else {
        score_digits(hundredths as nat)
    }
}

/// Writes a score with two decimals, as in `8.75`.
pub fn format_score(hundredths: i32) -> (text: String)
    ensures
        text@ == score_text(hundredths),
{
    let negative = hundredths < 0;
    let size: usize = if negative {
        (-(hundredths as i64)) as usize
    } else {
        hundredths as usize
    };
    let mut text = if negative {
        "-".to_owned()
    } else {
        String::new()
    };
    let whole = decimal(size / 100);
    let tenths = decimal(size / 10 % 10);
    let last = decimal(size % 10);
    text.append(whole.as_str());
    text.append(".");
    text.append(tenths.as_str());
    text.append(last.as_str());
    assert(text@ =~= score_text(hundredths));
    text
}

} // verus!
