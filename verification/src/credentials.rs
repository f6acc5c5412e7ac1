//! Password policy: how strong a new password must be, and how passwords
//! are hashed and checked.

use argon2::password_hash::rand_core::OsRng;
use argon2::password_hash::{self, SaltString};
use argon2::{Argon2, PasswordHash, PasswordHasher, PasswordVerifier};
use vstd::arithmetic::power2::{
    lemma2_to64, lemma2_to64_rest, lemma_pow2_adds, lemma_pow2_pos, lemma_pow2_strictly_increases,
    pow2,
};
use vstd::prelude::*;

verus! {

/// The bits of the score that the `passwords` crate gives a password.
pub uninterp spec fn password_score_bits(password: Seq<char>) -> u64;

/// What checking a password against a stored hash gives.
pub uninterp spec fn password_check(password: Seq<char>, password_hash: Seq<char>) -> CheckView;

/// The IEEE 754 binary64 encoding of 80, the lowest score a new password
/// may have.
pub const STRENGTH_THRESHOLD_BITS: u64 = 0x4054_0000_0000_0000;

/// The sign bit of a binary64 encoding.
pub const SIGN_BIT: u64 = 0x8000_0000_0000_0000;

/// The encoding of positive infinity.
pub const INFINITY_BITS: u64 = 0x7ff0_0000_0000_0000;

/// Two to the power of 52: the weight of the hidden bit of a significand.
pub const HIDDEN_BIT: u64 = 0x10_0000_0000_0000;

/// The exponent field that marks infinities and values that are no number.
pub const SPECIAL_EXPONENT: u64 = 0x7ff;

/// How many digits the thread count of a stored hash may have.
pub const THREAD_DIGITS: usize = 8;

/// Whether a character is a decimal digit.
pub open spec fn is_digit(character: char) -> bool {
    0x30 <= character as u32 <= 0x39
}

/// Whether the characters from `from` up to `to` begin a thread count: the
/// letter `p`, then `=`, then digits.
pub open spec fn begins_thread_count(text: Seq<char>, from: int, to: int) -> bool {
    &&& 0 <= from < to <= text.len()
    &&& text[from] == 'p'
    &&& from + 1 < to ==> text[from + 1] == '='
    &&& forall|k: int| from + 2 <= k < to ==> is_digit(#[trigger] text[k])
}

/// Whether a thread count of more than [`THREAD_DIGITS`] digits starts at
/// `from`.
pub open spec fn long_thread_count_at(text: Seq<char>, from: int) -> bool {
    begins_thread_count(text, from, from + 3 + THREAD_DIGITS)
}

/// Whether a stored hash can be handed to the hasher: nowhere in it does
/// `p=` come before more than [`THREAD_DIGITS`] digits, so that the number
/// of threads it asks for, which the hasher multiplies by eight in 32 bits,
/// is below a hundred million.
pub open spec fn threads_bounded(text: Seq<char>) -> bool {
    forall|from: int| !#[trigger] long_thread_count_at(text, from)
}

/// The cause recorded for a stored hash that cannot be handed to the
/// hasher.
pub open spec fn unbounded_threads() -> Seq<char> {
    "the stored password hash asks for too many threads"@
}

/// Outcome of checking a password against a stored hash.
pub enum PasswordCheck {
    /// The password is the one that was hashed.
    Accepted,
    /// The password is another one.
    Rejected,
    /// The stored hash could not be read or recomputed; the text says why.
    Failed(String),
}

/// Mathematical value of a [`PasswordCheck`].
pub enum CheckView {
    Accepted,
    Rejected,
    Failed(Seq<char>),
}

impl DeepView for PasswordCheck {
    type V = CheckView;

    open spec fn deep_view(&self) -> CheckView {
        match self {
            PasswordCheck::Accepted => CheckView::Accepted,
            PasswordCheck::Rejected => CheckView::Rejected,
            PasswordCheck::Failed(cause) => CheckView::Failed(cause@),
        }
    }
}

/// The exponent field of a binary64 encoding: the eleven bits below the
/// sign.
pub open spec fn exponent_field(bits: u64) -> nat {
    ((bits as nat) / (HIDDEN_BIT as nat)) % 0x800
}

/// The fraction field of a binary64 encoding: its lowest 52 bits.
pub open spec fn fraction_field(bits: u64) -> nat {
    (bits as nat) % (HIDDEN_BIT as nat)
}

/// Whether an encoding stands for a number or an infinity, not for "not a
/// number".
pub open spec fn encodes_number(bits: u64) -> bool {
    exponent_field(bits) != SPECIAL_EXPONENT || fraction_field(bits) == 0
}

/// The magnitude that an encoding stands for, multiplied by two to the
/// power of 1075, which makes it an integer. With exponent field `e`
/// and fraction `f`, the magnitude is `(2^52 + f) * 2^(e - 1075)`, or
/// `f * 2^-1074` where `e` is zero.
pub open spec fn scaled_magnitude(bits: u64) -> int {
    if exponent_field(bits) == 0 {
        fraction_field(bits) as int * 2
    } else {
        (HIDDEN_BIT + fraction_field(bits)) * pow2(exponent_field(bits))
    }
}

/// Whether the number that `bits` encodes is less than 80, as a comparison
/// of binary64 values decides it: "not a number" is less than nothing; a
/// value with the sign set, negative zero included, is less than 80; any
/// other value is if its magnitude is.
pub open spec fn score_is_weak(bits: u64) -> bool {
    encodes_number(bits) && (bits >= SIGN_BIT || scaled_magnitude(bits) < 80 * pow2(1075))
}

/// The threshold encodes 80: its exponent field is 1029 and its fraction a
/// quarter, so it stands for `1.25 * 2^6`.
pub proof fn law_threshold_is_eighty()
    ensures
        STRENGTH_THRESHOLD_BITS < SIGN_BIT,
        encodes_number(STRENGTH_THRESHOLD_BITS),
        scaled_magnitude(STRENGTH_THRESHOLD_BITS) == 80 * pow2(1075),
{
    lemma2_to64_rest();
    lemma_pow2_adds(46, 1029);
    assert(exponent_field(STRENGTH_THRESHOLD_BITS) == 1029);
    assert(fraction_field(STRENGTH_THRESHOLD_BITS) == 0x4_0000_0000_0000);
    assert((HIDDEN_BIT + 0x4_0000_0000_0000) * pow2(1029) == 80 * (pow2(46) * pow2(1029)))
        by (nonlinear_arith)
        requires
            pow2(46) == 0x400000000000,
    ;
}

/// Binary64 values of one sign are ordered as their encodings are, so a
/// score is below the threshold exactly if its encoding is.
pub proof fn lemma_weak_by_encoding(bits: u64)
    ensures
        score_is_weak(bits) == if bits >= SIGN_BIT {
            bits - SIGN_BIT <= INFINITY_BITS
        } else {
            bits < STRENGTH_THRESHOLD_BITS
        },
{
    lemma2_to64();
    lemma2_to64_rest();
    let exponent = exponent_field(bits);
    let fraction = fraction_field(bits);
    let limit = 80 * pow2(1075);
    if bits < SIGN_BIT {
        assert(bits == exponent * HIDDEN_BIT + fraction);
        lemma_pow2_pos(exponent);
        if exponent == 0 {
            lemma_pow2_strictly_increases(53, 1075);
        } else if exponent <= 1028 {
            lemma_pow2_adds(53, exponent);
            lemma_pow2_adds(6, 1075);
            if exponent < 1028 {
                lemma_pow2_strictly_increases(53 + exponent, 1081);
            }
            assert((HIDDEN_BIT + fraction) * pow2(exponent) < pow2(53) * pow2(exponent))
                by (nonlinear_arith)
                requires
                    HIDDEN_BIT + fraction < pow2(53),
                    0 < pow2(exponent),
            ;
            assert(pow2(6) * pow2(1075) < 80 * pow2(1075)) by (nonlinear_arith)
                requires
                    pow2(6) == 0x40,
                    0 < pow2(1075),
            {
                lemma_pow2_pos(1075);
            }
            assert(scaled_magnitude(bits) < limit);
        } else if exponent == 1029 {
            lemma_pow2_adds(46, 1029);
            lemma_pow2_pos(1029);
            assert(((HIDDEN_BIT + fraction) * pow2(1029) < 80 * (pow2(46) * pow2(1029))) == (
            fraction < 0x4_0000_0000_0000)) by (nonlinear_arith)
                requires
                    pow2(46) == 0x400000000000,
                    0 < pow2(1029),
                    HIDDEN_BIT == 0x10_0000_0000_0000,
            ;
        } else {
            lemma_pow2_adds(52, 1030);
            lemma_pow2_adds(7, 1075);
            lemma_pow2_pos(1075);
            if exponent > 1030 {
                lemma_pow2_strictly_increases(1030, exponent);
            }
            assert(pow2(52) * pow2(1030) <= (HIDDEN_BIT + fraction) * pow2(exponent))
                by (nonlinear_arith)
                requires
                    pow2(52) <= HIDDEN_BIT + fraction,
                    pow2(1030) <= pow2(exponent),
            ;
            assert(80 * pow2(1075) < pow2(7) * pow2(1075)) by (nonlinear_arith)
                requires
                    pow2(7) == 0x80,
                    0 < pow2(1075),
            ;
            assert(scaled_magnitude(bits) >= limit);
        }
    } else {
        let magnitude = (bits - SIGN_BIT) as nat;
        assert(magnitude == exponent * HIDDEN_BIT + fraction);
    }
}

/// Whether a password is too weak to be accepted.
pub open spec fn is_weak_password(password: Seq<char>) -> bool {
    score_is_weak(password_score_bits(password))
}

/// Analyzes the password with `passwords::analyzer::analyze`, scores the
/// analysis with `passwords::scorer::score` and returns the score's bits
/// (`to_bits`). The score depends on the password alone; the contract only
/// names it.
#[verifier::external_body]
fn score_bits(password: &str) -> (bits: u64)
    ensures
        bits == password_score_bits(password@),
{
    passwords::scorer::score(&passwords::analyzer::analyze(password)).to_bits()
}

/// Hashes a password with Argon2 in its default configuration
/// (`PasswordHasher::hash_password`) and a salt drawn from the operating
/// system (`SaltString::generate`), and returns the hash in its text form,
/// or the hasher's error as text. The salt is random, so the text is not
/// determined; whatever it is, it carries the salt and the parameters under
/// which the same password gives the same output, so checking the password
/// against it accepts.
#[verifier::external_body]
pub(crate) fn hash_password(password: &str) -> (hashed: Result<String, String>)
    ensures
        hashed matches Ok(text) ==> password_check(password@, text@) == CheckView::Accepted,
{
    let salt = SaltString::generate(&mut OsRng);
    match Argon2::default().hash_password(password.as_bytes(), &salt) {
        Ok(hash) => Ok(hash.to_string()),
        Err(error) => Err(error.to_string()),
    }
}

/// Parses a stored hash with `PasswordHash::new` and checks the password
/// against it with `PasswordVerifier::verify_password` on Argon2 in its
/// default configuration. Both depend on the two texts alone; the contract
/// only names the outcome. The hasher multiplies the thread count of the
/// stored hash by eight before it tests its size, so a hash with a larger
/// count than the condition admits must not be handed over. How much
/// memory and how many passes the check takes is the stored hash's to say.
#[verifier::external_body]
pub(crate) fn verify_password(password: &str, stored: &str) -> (outcome: PasswordCheck)
    requires
        threads_bounded(stored@),
    ensures
        outcome.deep_view() == password_check(password@, stored@),
{
    match PasswordHash::new(stored) {
        Err(error) => PasswordCheck::Failed(error.to_string()),
        Ok(parsed) => match Argon2::default().verify_password(password.as_bytes(), &parsed) {
            Ok(()) => PasswordCheck::Accepted,
            Err(password_hash::Error::Password) => PasswordCheck::Rejected,
            Err(error) => PasswordCheck::Failed(error.to_string()),
        },
    }
}

/// Whether a stored hash can be handed to the hasher.
pub fn has_bounded_threads(text: &str) -> (bounded: bool)
    ensures
        bounded == threads_bounded(text@),
{
    // How many characters of a thread count end at the current position.
    let mut matched: usize = 0;
    for character in walk: text.chars()
        invariant
            walk.seq() == text@,
            matched <= 2 + THREAD_DIGITS,
            matched <= walk.index(),
            forall|from: int|
                0 <= from < walk.index() ==> (#[trigger] begins_thread_count(
                    text@,
                    from,
                    walk.index(),
                ) <==> matched > 0 && from == walk.index() - matched),
            forall|from: int|
                from + 3 + THREAD_DIGITS <= walk.index() ==> !#[trigger] long_thread_count_at(
                    text@,
                    from,
                ),
    {
        let ghost seen = walk.index();
        let code: u32 = character as u32;
        let earlier: usize = matched;
        if matched >= 2 && 0x30 <= code && code <= 0x39 {
            if matched == 2 + THREAD_DIGITS {
                proof {
                    let from = seen - matched;
                    assert(begins_thread_count(text@, from, seen));
                    assert(long_thread_count_at(text@, from));
                }
                return false;
            }
            matched += 1;
        } else if character == 'p' {
            matched = 1;
        } else if matched == 1 && character == '=' {
            matched = 2;
        } else {
            matched = 0;
        }
        proof {
            assert forall|from: int| 0 <= from < seen + 1 implies (#[trigger] begins_thread_count(
                text@,
                from,
                seen + 1,
            ) <==> matched > 0 && from == seen + 1 - matched) by {
                if from < seen {
                    assert(begins_thread_count(text@, from, seen) <==> earlier > 0 && from == seen
                        - earlier);
                    if begins_thread_count(text@, from, seen + 1) {
                        assert(begins_thread_count(text@, from, seen));
                    }
                }
            }
            assert forall|from: int| from + 3 + THREAD_DIGITS <= seen + 1 implies !#[trigger]
                long_thread_count_at(text@, from) by {
                if from + 3 + THREAD_DIGITS == seen + 1 && from >= 0 {
                    assert(begins_thread_count(text@, from, seen + 1) <==> matched > 0 && from
                        == seen + 1 - matched);
                }
            }
        }
    }
    true
}

/// Whether a score, given by its bits, is below the threshold.
pub fn is_weak_score(bits: u64) -> (weak: bool)
    ensures
        weak == score_is_weak(bits),
{
    proof {
        lemma_weak_by_encoding(bits);
    }
    if bits >= SIGN_BIT {
        bits - SIGN_BIT <= INFINITY_BITS
    } else {
        bits < STRENGTH_THRESHOLD_BITS
    }
}

/// Whether a password scores below the threshold.
pub fn is_weak(password: &str) -> (weak: bool)
    ensures
        weak == is_weak_password(password@),
{
    is_weak_score(score_bits(password))
}

} // verus!
