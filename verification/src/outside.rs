//! What this library takes on trust from the crates it calls. Nothing here
//! is proved: each contract restates what the crate documents.

use regex::Regex;
use vstd::prelude::*;

verus! {

/// A compiled regular expression of the `regex` crate, opaque here.
#[verifier::external_type_specification]
#[verifier::external_body]
pub struct ExRegex(regex::Regex);

/// Whether a compiled regular expression finds a match anywhere in a text.
pub uninterp spec fn regex_is_match(re: Regex, haystack: Seq<char>) -> bool;

/// `Regex::is_match` answers whether there is a match for the expression
/// anywhere in the haystack. The answer depends on the expression and on
/// the haystack alone.
pub assume_specification[ Regex::is_match ](re: &Regex, haystack: &str) -> (found: bool)
    ensures
        found == regex_is_match(*re, haystack@),
;

/// `hostname::get` asks the operating system for the name of the host. The
/// name comes back only where the system gave one and it is valid Unicode;
/// nothing is promised of what it holds.
#[verifier::external_body]
pub(crate) fn hostname_get() -> (name: Option<String>) {
    match hostname::get() {
        Ok(name) => name.into_string().ok(),
        Err(_) => None,
    }
}

/// `os_info::get` detects the operating system; its type, version and
/// bitness are returned as each of them prints itself. Nothing is promised
/// of what they hold.
#[verifier::external_body]
pub(crate) fn os_info_get() -> (info: (String, String, String)) {
    let info = os_info::get();
    (format!("{}", info.os_type()), format!("{}", info.version()), format!("{}", info.bitness()))
}

} // verus!
