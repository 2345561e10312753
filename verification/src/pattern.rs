use vstd::prelude::*;

verus! {

/// A compiled regular expression of the `regex` crate.
#[verifier::external_type_specification]
#[verifier::external_body]
pub struct ExRegex(regex::Regex);

/// What a search for `pattern` in `text` captures: `None` when the pattern
/// is no valid regular expression or matches nowhere in the text; otherwise
/// the text of every capture group of the leftmost match, group zero (the
/// whole match) first, with `None` for a group that took no part in it.
pub uninterp spec fn regex_captures(pattern: Seq<char>, text: Seq<char>) -> Option<
    Seq<Option<Seq<char>>>,
>;

/// A regular expression together with the text it was compiled from.
pub struct Pattern {
    source: String,
    compiled: regex::Regex,
}

impl View for Pattern {
    type V = Seq<char>;

    closed spec fn view(&self) -> Seq<char> {
        self.source@
    }
}

/// The characters of each captured group.
pub open spec fn groups_view(groups: Seq<Option<String>>) -> Seq<Option<Seq<char>>> {
    groups.map_values(
        |g: Option<String>|
            match g {
                Some(s) => Some(s@),
                None => None,
            },
    )
}

/// The characters of each captured group, where there was a match.
pub open spec fn captures_view(found: Option<Vec<Option<String>>>) -> Option<
    Seq<Option<Seq<char>>>,
> {
    match found {
        Some(groups) => Some(groups_view(groups@)),
        None => None,
    }
}

impl Pattern {
    /// Compiles `pattern`.
    ///
    /// Calls `regex::Regex::new`, which fails exactly when the pattern is
    /// not a valid regular expression (or compiles to a program over the
    /// size limit); a pattern that does not compile captures nothing in any
    /// text.
    #[verifier::external_body]
    pub(crate) fn compile(pattern: &str) -> (r: Option<Pattern>)
        ensures
            r matches Some(p) ==> p@ == pattern@,
            r is None ==> forall|text: Seq<char>| regex_captures(pattern@, text) is None,
    {
        let compiled = regex::Regex::new(pattern).ok()?;
        Some(Pattern { source: pattern.to_string(), compiled })
    }

    /// Searches `text` for the leftmost match and hands out its capture groups.
    ///
    /// Calls `regex::Regex::captures` and copies the text of each group,
    /// group zero included, in the order of `Captures::iter`.
    #[verifier::external_body]
    pub(crate) fn captures(&self, text: &str) -> (r: Option<Vec<Option<String>>>)
        ensures
            captures_view(r) == regex_captures(self@, text@),
    {
        let found = self.compiled.captures(text)?;
        Some(found.iter().map(|m| m.map(|m| m.as_str().to_string())).collect())
    }
}

} // verus!
