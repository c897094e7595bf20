//! Regular-expression text replacement. The pattern matching itself is done
//! by the regex crate behind trusted wrappers; everything around the calls,
//! in particular how a refused pattern is absorbed into an [`ErrorValue`],
//! is verified.

use vstd::prelude::*;

use crate::error::EXTERNAL_ID_MIN;
use crate::error::ErrorValue;
use crate::error::ExternalError;
use crate::error::Kind;

verus! {

/// The stable payload identity of a pattern error absorbed from the regex
/// crate; at least [`EXTERNAL_ID_MIN`], as every external identity must be.
pub const REGEX_ERROR_ID: u64 = 5;

/// Whether the regex crate, at its default configuration, accepts the
/// pattern; a property of the pattern text alone.
pub uninterp spec fn pattern_compiles(pattern: Seq<char>) -> bool;

/// The text that replacing every non-overlapping match of the pattern with
/// the replacement produces; a function of the three texts alone.
pub uninterp spec fn replaced_text(pattern: Seq<char>, text: Seq<char>, replacement: Seq<
    char,
>) -> Seq<char>;

#[verifier::external_type_specification]
#[verifier::external_body]
pub struct ExRegexError(regex::Error);

/// Relies on `regex::Regex::new` and `regex::Regex::replace_all`: with the
/// default builder configuration, compiling succeeds or fails on the
/// pattern text alone, and the replacement outcome is a function of the
/// pattern, the haystack and the replacement text alone.
#[verifier::external_body]
fn regex_replace_all(pattern: &str, text: &str, replacement: &str) -> (r: Result<
    String,
    regex::Error,
>)
    ensures
        r is Ok <==> pattern_compiles(pattern@),
        r matches Ok(s) ==> s@ == replaced_text(pattern@, text@, replacement@),
{
    match regex::Regex::new(pattern) {
        Ok(re) => Ok(re.replace_all(text, replacement).into_owned()),
        Err(e) => Err(e),
    }
}

/// Relies on the `Display` impl of `regex::Error`: a textual description of
/// why the pattern was refused. Nothing further is assumed of the text.
#[verifier::external_body]
fn regex_error_message(e: &regex::Error) -> String {
    format!("{}", e)
}

/// Replaces every non-overlapping match of `target` in `text` with
/// `replacement`. A pattern the regex crate refuses becomes a terminal
/// `Parse` error stamped with [`REGEX_ERROR_ID`] and carrying the crate's
/// own description.
pub fn replace(target: &str, replacement: &str, text: &str, capture: bool) -> (r: Result<
    String,
    ErrorValue,
>)
    ensures
        r is Ok <==> pattern_compiles(target@),
        r matches Ok(s) ==> s@ == replaced_text(target@, text@, replacement@),
        r matches Err(e) ==> {
            &&& e.wf()
            &&& e@.len() == 1
            &&& e@[0].kind == Kind::Parse
            &&& e@[0].type_id == REGEX_ERROR_ID
            &&& e@[0].context is None
            &&& (e@[0].backtrace is Some <==> capture)
        },
{
    match regex_replace_all(target, text, replacement) {
        Ok(s) => Ok(s),
        Err(e) => {
            let described = regex_error_message(&e);
            let message = if described.as_str().is_empty() {
                proof {
                    reveal_strlit("invalid pattern");
                }
                String::from_str("invalid pattern")
            } else {
                described
            };
            let ext = ExternalError {
                kind: Kind::Parse,
                type_id: REGEX_ERROR_ID,
                message,
                context: None,
            };
            Err(ErrorValue::from_external(ext, capture))
        },
    }
}

} // verus!
