//! A compiled line pattern, kept together with the text it was compiled from.
use vstd::prelude::*;
use vstd::string::StringExecFns;

verus! {

#[verifier::external_type_specification]
#[verifier::external_body]
pub struct ExRegex(regex::Regex);

/// The text of capture group `group` in the leftmost-first match of the
/// regular expression `pattern` in `text`, as the regex crate finds it;
/// `None` where nothing matches or the group took no part in the match.
pub uninterp spec fn regex_group(pattern: Seq<char>, text: Seq<char>, group: nat) -> Option<Seq<char>>;

/// Whether the regex crate accepts `pattern`: it is valid and its compiled
/// form stays within the default size limit.
pub uninterp spec fn regex_compiles(pattern: Seq<char>) -> bool;

/// Relies on `regex::Regex::new`: the regex compiled from `source`, or `Err`
/// for an invalid pattern; which of the two depends on `source` alone.
#[verifier::external_body]
fn compile_regex(source: &str) -> (r: Option<regex::Regex>)
    ensures
        r is Some == regex_compiles(source@),
{
    regex::Regex::new(source).ok()
}

/// A regular expression that compiled, together with its source text. Its
/// fields are private and `compile` alone builds one, so `compiled` is always
/// the regex of `source`.
pub struct LinePattern {
    source: String,
    compiled: regex::Regex,
}

/// A found group as characters.
pub open spec fn group_view(g: Option<String>) -> Option<Seq<char>> {
    match g {
        Some(s) => Some(s@),
        None => None,
    }
}

impl LinePattern {
    /// The source text the pattern was compiled from.
    pub closed spec fn source(&self) -> Seq<char> {
        self.source@
    }

    /// Compiles `source`; `None` where the regex crate rejects it.
    pub fn compile(source: &str) -> (r: Option<LinePattern>)
        ensures
            r is Some == regex_compiles(source@),
            r matches Some(p) ==> p.source() == source@,
    {
        match compile_regex(source) {
            Some(compiled) => Some(LinePattern { source: String::from_str(source), compiled }),
            None => None,
        }
    }

    /// Relies on `regex::Regex::captures`, `Captures::get` and `Match::as_str`:
    /// the text of group `group` of the first match in `text`.
    #[verifier::external_body]
    pub(crate) fn group_in(&self, text: &str, group: usize) -> (r: Option<String>)
        ensures
            group_view(r) == regex_group(self.source(), text@, group as nat),
    {
        self.compiled.captures(text).and_then(|c| c.get(group)).map(|m| m.as_str().to_string())
    }
}

} // verus!
