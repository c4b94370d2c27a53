//! Text normalized with NFKC and trimmed, non-empty, and of a bounded number
//! of user-perceived characters.
use crate::error::{AppError, AppResult, ErrorKind};
use crate::text::{decimal, decimal_string, lemma_trim_idempotent, trim_owned, trim_ws};
use unicode_normalization::UnicodeNormalization;
use unicode_segmentation::UnicodeSegmentation;
use vstd::prelude::*;

verus! {

/// The Unicode NFKC normal form of `s`.
pub uninterp spec fn nfkc_of(s: Seq<char>) -> Seq<char>;

/// The number of extended grapheme clusters of `s`.
pub uninterp spec fn grapheme_count_of(s: Seq<char>) -> nat;

/// Relies on unicode-normalization's `UnicodeNormalization::nfkc`: the NFKC
/// form of the text, which depends on the characters alone.
#[verifier::external_body]
fn nfkc(s: &str) -> (r: String)
    ensures
        r@ == nfkc_of(s@),
{
    s.nfkc().collect::<String>()
}

/// Relies on unicode-segmentation's `UnicodeSegmentation::graphemes` (extended
/// clusters), counted: each cluster holds at least one character.
#[verifier::external_body]
fn grapheme_count(s: &str) -> (r: usize)
    ensures
        r as nat == grapheme_count_of(s@),
        r <= s@.len(),
{
    s.graphemes(true).count()
}

/// Detail of the error for required text that is empty.
pub open spec fn required_message(target: Seq<char>) -> Seq<char> {
    target + "は必須のパラメータです。"@
}

/// Detail of the error for text under `min` characters.
pub open spec fn too_short_message(target: Seq<char>, min: nat) -> Seq<char> {
    target + "は"@ + decimal(min) + "文字以上で入力してください。"@
}

/// Detail of the error for text over `max` characters.
pub open spec fn too_long_message(target: Seq<char>, max: nat) -> Seq<char> {
    target + "は"@ + decimal(max) + "文字以内で入力してください。"@
}

/// What validating trimmed text `t` of `count` characters gives: absent or an
/// error when it is empty, an error when its length is out of bounds, and
/// the text itself otherwise.
pub open spec fn validate_outcome(
    t: Seq<char>,
    count: nat,
    required: bool,
    target: Seq<char>,
    min_len: Option<usize>,
    max_len: Option<usize>,
) -> Result<Option<Seq<char>>, (ErrorKind, Option<Seq<char>>)> {
    if t.len() == 0 {
        if required {
            Err((ErrorKind::UnprocessableContent, Some(required_message(target))))
        } else {
            Ok(None)
        }
    } else if min_len is Some && count < min_len.unwrap() {
        Err((ErrorKind::UnprocessableContent, Some(too_short_message(target, min_len.unwrap() as nat))))
    } else if max_len is Some && count > max_len.unwrap() {
        Err((ErrorKind::UnprocessableContent, Some(too_long_message(target, max_len.unwrap() as nat))))
    } else {
        Ok(Some(t))
    }
}

/// What normalizing `input` gives: its NFKC form, trimmed, then validated
/// with its grapheme count as its length.
pub open spec fn normalize_outcome(
    input: Seq<char>,
    required: bool,
    target: Seq<char>,
    min_len: Option<usize>,
    max_len: Option<usize>,
) -> Result<Option<Seq<char>>, (ErrorKind, Option<Seq<char>>)> {
    let t = trim_ws(nfkc_of(input));
    validate_outcome(t, grapheme_count_of(t), required, target, min_len, max_len)
}

/// A validated, normalized text.
#[derive(Debug, PartialEq, Eq)]
pub struct NormalizedString {
    value: String,
}

/// The model of a validation result.
pub open spec fn outcome_view(r: AppResult<Option<NormalizedString>>) -> Result<
    Option<Seq<char>>,
    (ErrorKind, Option<Seq<char>>),
> {
    match r {
        Ok(Some(v)) => Ok(Some(v@)),
        Ok(None) => Ok(None),
        Err(e) => Err(e@),
    }
}

impl View for NormalizedString {
    type V = Seq<char>;

    closed spec fn view(&self) -> Seq<char> {
        self.value@
    }
}

impl NormalizedString {
    /// The text is not empty and has no white space at either end.
    #[verifier::type_invariant]
    spec fn inv(&self) -> bool {
        self.value@.len() > 0 && trim_ws(self.value@) == self.value@
    }

    /// Normalizes `input` with NFKC, trims it, and validates it: empty text is
    /// absent, or an error where `required`; otherwise its number of
    /// grapheme clusters must lie within `min_len` and `max_len` where given.
    /// `target` names the value in error details.
    pub fn new(
        input: &str,
        required: bool,
        target: &str,
        min_len: Option<usize>,
        max_len: Option<usize>,
    ) -> (r: AppResult<Option<NormalizedString>>)
        ensures
            outcome_view(r) == normalize_outcome(input@, required, target@, min_len, max_len),
    {
        let normalized = nfkc(input);
        let trimmed = trim_owned(normalized.as_str());
        let count = grapheme_count(trimmed.as_str());
        proof {
            lemma_trim_idempotent(nfkc_of(input@));
        }
        Self::validate(trimmed, count, required, target, min_len, max_len)
    }

    /// The validation that follows normalization, on `text` counted as
    /// `grapheme_len` characters once trimmed.
    pub fn validate(
        text: String,
        grapheme_len: usize,
        required: bool,
        target: &str,
        min_len: Option<usize>,
        max_len: Option<usize>,
    ) -> (r: AppResult<Option<NormalizedString>>)
        ensures
            outcome_view(r) == validate_outcome(
                trim_ws(text@),
                grapheme_len as nat,
                required,
                target@,
                min_len,
                max_len,
            ),
    {
        let value = trim_owned(text.as_str());
        if value.unicode_len() == 0 {
            if required {
                let detail = String::from_str(target).concat("は必須のパラメータです。");
                return Err(AppError::UnprocessableContent(Some(detail)));
            } else {
                return Ok(None);
            }
        }
        if let Some(min) = min_len {
            if grapheme_len < min {
                let detail = String::from_str(target).concat("は").concat(
                    decimal_string(min).as_str(),
                ).concat("文字以上で入力してください。");
                return Err(AppError::UnprocessableContent(Some(detail)));
            }
        }
        if let Some(max) = max_len {
            if grapheme_len > max {
                let detail = String::from_str(target).concat("は").concat(
                    decimal_string(max).as_str(),
                ).concat("文字以内で入力してください。");
                return Err(AppError::UnprocessableContent(Some(detail)));
            }
        }
        proof {
            lemma_trim_idempotent(text@);
        }
        Ok(Some(NormalizedString { value }))
    }

    /// The normalized text.
    pub fn as_str(&self) -> (r: &str)
        ensures
            r@ == self@,
            r@.len() > 0,
            trim_ws(r@) == r@,
    {
        proof {
            use_type_invariant(self);
        }
        self.value.as_str()
    }
}

/// Normalizing the result of a normalization again gives that result back,
/// wherever NFKC leaves the result as it is.
pub proof fn lemma_normalize_fixed_point(
    input: Seq<char>,
    required: bool,
    target: Seq<char>,
    min_len: Option<usize>,
    max_len: Option<usize>,
    again_required: bool,
    again_target: Seq<char>,
)
    requires
        normalize_outcome(input, required, target, min_len, max_len) is Ok,
        normalize_outcome(input, required, target, min_len, max_len)->Ok_0 is Some,
        nfkc_of(normalize_outcome(input, required, target, min_len, max_len)->Ok_0->Some_0)
            == normalize_outcome(input, required, target, min_len, max_len)->Ok_0->Some_0,
    ensures
        normalize_outcome(
            normalize_outcome(input, required, target, min_len, max_len)->Ok_0->Some_0,
            again_required,
            again_target,
            min_len,
            max_len,
        ) == normalize_outcome(input, required, target, min_len, max_len),
{
    lemma_trim_idempotent(nfkc_of(input));
}

} // verus!
