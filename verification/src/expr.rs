//! Schedule-expression normalization.
//!
//! A schedule expression is classified lexically: if it contains any ASCII
//! alphabetic character it is treated as an English phrase and translated to
//! cron syntax; otherwise it is assumed to be cron syntax already and passed
//! through unchanged.

use vstd::prelude::*;
use vstd::string::StrSliceExecFns;

verus! {

/// Why a schedule expression was rejected at construction time.
#[derive(Clone, Copy, Debug, PartialEq, Eq, Structural)]
pub enum ExpressionError {
    /// The expression was classified as English but no translation rule
    /// matched it.
    Untranslatable,
    /// The (possibly translated) expression does not parse as canonical
    /// cron syntax.
    InvalidSyntax,
}

/// The cron string that `english_to_cron` translates an English phrase to,
/// or `None` where no translation rule matches. The translation is a pure
/// function of the phrase.
pub uninterp spec fn english_cron_of(s: Seq<char>) -> Option<Seq<char>>;

/// An ASCII alphabetic character, the mark of an English phrase.
pub open spec fn is_ascii_alpha(c: char) -> bool {
    (97 <= c as u32 && c as u32 <= 122) || (65 <= c as u32 && c as u32 <= 90)
}

/// An expression is classified as English when any of its characters is
/// ASCII alphabetic.
pub open spec fn spec_is_english(s: Seq<char>) -> bool {
    exists|i: int| 0 <= i < s.len() && is_ascii_alpha(s[i])
}

/// The canonical cron string an expression normalizes to: English phrases go
/// through the translation table, anything else is already canonical.
/// `None` means the expression was English and untranslatable.
pub open spec fn normalized_of(s: Seq<char>) -> Option<Seq<char>> {
    if spec_is_english(s) {
        english_cron_of(s)
    } else {
        Some(s)
    }
}

/// Decides whether `s` holds any ASCII alphabetic character.
fn contains_alphabetic(s: &str) -> (r: bool)
    ensures
        r == spec_is_english(s@),
{
    let n: usize = s.unicode_len();
    let mut i: usize = 0;
    while i < n
        invariant
            n == s@.len(),
            i <= n,
            forall|j: int| 0 <= j < i ==> !is_ascii_alpha(s@[j]),
        decreases n - i,
    {
        let c: char = s.get_char(i);
        let u: u32 = c as u32;
        if (97 <= u && u <= 122) || (65 <= u && u <= 90) {
            assert(is_ascii_alpha(s@[i as int]));
            return true;
        }
        i = i + 1;
    }
    false
}

/// Relies on `english_to_cron::str_cron_syntax`: a deterministic, effect-free
/// translation of an English schedule phrase into cron syntax, failing exactly
/// when no translation rule matches.
#[verifier::external_body]
fn translate_english(s: &str) -> (r: Option<String>)
    ensures
        r is Some <==> english_cron_of(s@) is Some,
        r matches Some(c) ==> Some(c@) == english_cron_of(s@),
{
    english_to_cron::str_cron_syntax(s).ok()
}

/// Normalizes a schedule expression to canonical cron syntax.
///
/// An expression holding an ASCII alphabetic character is treated as English
/// and translated; any other expression is returned unchanged. The sole
/// failure is an English expression no translation rule matches.
pub fn parse_expression(expression: &str) -> (r: Result<String, ExpressionError>)
    ensures
        match r {
            Ok(c) => Some(c@) == normalized_of(expression@),
            Err(e) => normalized_of(expression@) is None && e == ExpressionError::Untranslatable,
        },
{
    if contains_alphabetic(expression) {
        match translate_english(expression) {
            Some(c) => Ok(c),
            None => Err(ExpressionError::Untranslatable),
        }
    } else {
        Ok(expression.to_string())
    }
}

} // verus!
