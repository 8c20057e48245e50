//! Regular expressions, as the `regex` crate runs them. The library hands it
//! a pattern and a text and reasons about what comes back.

use vstd::prelude::*;

verus! {

/// The error of the `regex` crate for a pattern that it does not compile.
#[verifier::external_type_specification]
#[verifier::external_body]
pub struct ExRegexError(regex::Error);

/// What capture group `group` of `pattern` holds in the leftmost match of
/// `text`: `None` where the pattern does not compile, `Some(None)` where the
/// text has no match or the group took no part in it.
pub uninterp spec fn regex_group(pattern: Seq<char>, text: Seq<char>, group: nat) -> Option<
    Option<Seq<char>>,
>;

/// `Regex::new` followed by `Regex::captures` and `Captures::get`: compiles
/// `pattern`, searches `text` for its leftmost match and copies out what
/// group `group` matched. The contract only gives that outcome its name,
/// `regex_group`; it claims nothing of what the name holds.
#[verifier::external_body]
pub(crate) fn capture_group(pattern: &str, text: &str, group: usize) -> (found: Result<
    Option<String>,
    regex::Error,
>)
    ensures
        match found {
            Ok(Some(part)) => regex_group(pattern@, text@, group as nat) == Some(Some(part@)),
            Ok(None) => regex_group(pattern@, text@, group as nat) == Some(
                None::<Seq<char>>,
            ),
            Err(_) => regex_group(pattern@, text@, group as nat) is None,
        },
{
    let compiled = regex::Regex::new(pattern)?;
    match compiled.captures(text) {
        Some(groups) => match groups.get(group) {
            Some(part) => Ok(Some(part.as_str().to_string())),
            None => Ok(None),
        },
        None => Ok(None),
    }
}

} // verus!
