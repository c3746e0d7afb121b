//! Shell-style path patterns, matched by the `globset` crate.
//!
//! The pattern language (`*`, `?`, `**`, classes, alternates) is globset's;
//! this module names its answers (does a pattern parse, does its matcher
//! compile, does it match a text) and hands them to the policy logic.

use vstd::prelude::*;
use vstd::string::StrSliceExecFns;

verus! {

/// Longest pattern, in characters, that the matching compiles with
/// globset's `GlobSetBuilder`. globset indexes the literal parts of a pattern with 32-bit state ids and
/// stops on a literal past about two thousand million bytes; this bound
/// keeps every pattern far below that.
pub const MAX_PATTERN_CHARS: usize = 16777216;

/// Whether `globset::Glob::new` accepts `pattern` (default options): the
/// pattern parses.
pub uninterp spec fn glob_parses(pattern: Seq<char>) -> bool;

/// Whether, for a pattern that parses, a `GlobSet` built from that one glob
/// with `GlobSetBuilder::build` compiles (its regular expression stays
/// within the regex engine's nesting and size limits).
pub uninterp spec fn glob_builds(pattern: Seq<char>) -> bool;

/// Whether the `GlobSet` built from the `pattern` matches `text`
/// (`globset::GlobSet::is_match`, default options, on a Unix host, where
/// globset leaves the text as it is).
pub uninterp spec fn glob_matches(pattern: Seq<char>, text: Seq<char>) -> bool;

/// A pattern the matching can use: within the length bound, parsed by
/// globset, and compiled into a `GlobSet`.
pub open spec fn glob_usable(pattern: Seq<char>) -> bool {
    pattern.len() <= MAX_PATTERN_CHARS && glob_parses(pattern) && glob_builds(pattern)
}

/// Calls `globset::Glob::new(pattern)` and reports whether it succeeded.
/// Trusted: the answer is taken to depend on the pattern alone, which the
/// crate's source shows (a parse of the pattern text under fixed options).
#[verifier::external_body]
pub(crate) fn glob_new_ok(pattern: &str) -> (r: bool)
    ensures
        r == glob_parses(pattern@),
{
    globset::Glob::new(pattern).is_ok()
}

/// Calls `globset::Glob::new(pattern)` and, on success, builds a
/// `GlobSet` of that glob with `GlobSetBuilder::build`; reports whether
/// both succeeded. Trusted: the answer is taken to depend on the pattern
/// alone, which the crate's source shows (a parse and a compilation of the
/// pattern text under fixed options). Both calls return their errors; the
/// length bound keeps the literal index of the build within its limits.
#[verifier::external_body]
fn glob_accepts(pattern: &str) -> (r: bool)
    requires
        pattern@.len() <= MAX_PATTERN_CHARS,
    ensures
        r == (glob_parses(pattern@) && glob_builds(pattern@)),
{
    match globset::Glob::new(pattern) {
        Ok(glob) => globset::GlobSetBuilder::new().add(glob).build().is_ok(),
        Err(_) => false,
    }
}

/// Builds the `GlobSet` of `pattern` as `glob_accepts` does and asks
/// `GlobSet::is_match(text)`; a pattern that globset refuses matches
/// nothing. Trusted: the answer is taken to depend on the pattern and the
/// text alone.
#[verifier::external_body]
fn glob_is_match(pattern: &str, text: &str) -> (r: bool)
    requires
        pattern@.len() <= MAX_PATTERN_CHARS,
    ensures
        r == (glob_parses(pattern@) && glob_builds(pattern@) && glob_matches(pattern@, text@)),
{
    match globset::Glob::new(pattern) {
        Ok(glob) => match globset::GlobSetBuilder::new().add(glob).build() {
            Ok(set) => set.is_match(text),
            Err(_) => false,
        },
        Err(_) => false,
    }
}

/// Whether the policy logic can use `pattern`.
pub fn pattern_usable(pattern: &str) -> (r: bool)
    ensures
        r == glob_usable(pattern@),
{
    if pattern.unicode_len() > MAX_PATTERN_CHARS {
        return false;
    }
    glob_accepts(pattern)
}

/// Whether `pattern` is usable and matches `text`.
pub fn pattern_matches(pattern: &str, text: &str) -> (r: bool)
    ensures
        r == (glob_usable(pattern@) && glob_matches(pattern@, text@)),
{
    if pattern.unicode_len() > MAX_PATTERN_CHARS {
        return false;
    }
    glob_is_match(pattern, text)
}

} // verus!
