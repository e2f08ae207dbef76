//! Compiled patterns: a regular-expression engine seen through the text it
//! was compiled from.

use regex::Regex;
use vstd::prelude::*;

verus! {

/// `regex::Regex`, a compiled regular expression, as an opaque type.
#[verifier::external_type_specification]
#[verifier::external_body]
pub struct ExRegex(Regex);

/// `regex::Error`, the reason why a text was not compiled, as an opaque type.
#[verifier::external_type_specification]
#[verifier::external_body]
pub struct ExRegexError(regex::Error);

/// The text that an engine was compiled from: what `Regex::as_str` returns
/// of it, which is the text that was handed to `Regex::new`.
pub uninterp spec fn regex_source(engine: Regex) -> Seq<char>;

/// Whether the engine that `Regex::new` compiles from `source` finds a match
/// anywhere in `haystack`: what `Regex::is_match` returns.
pub uninterp spec fn regex_accepts(source: Seq<char>, haystack: Seq<char>) -> bool;

/// Whether the engine compiles `source`: whether `Regex::new` returns `Ok`
/// for it. The engine refuses a text that it cannot read, and one whose
/// compiled program would exceed its size limit.
pub uninterp spec fn regex_compiles(source: Seq<char>) -> bool;

/// The characters that the engine reads as syntax when they stand unescaped.
pub open spec fn is_meta_character(c: char) -> bool {
    c == '\\' || c == '.' || c == '+' || c == '*' || c == '?' || c == '(' || c == ')' || c == '|'
        || c == '[' || c == ']' || c == '{' || c == '}' || c == '^' || c == '$' || c == '#'
        || c == '&' || c == '-' || c == '~'
}

/// One character written so that the engine reads it as itself.
pub open spec fn escaped_char(c: char) -> Seq<char> {
    if is_meta_character(c) {
        seq!['\\', c]
    } else {
        seq![c]
    }
}

/// The texts that stand for "every path": the empty one, `.*`, and `.*`
/// behind the flag that lets it run across line breaks.
pub open spec fn is_match_all_text(text: Seq<char>) -> bool {
    text.len() == 0 || text == seq!['.', '*'] || text == seq!['(', '?', 's', ')', '.', '*']
}

/// Whether there is a pattern for `text`. A match-all text always has one;
/// any other has one where the engine compiles it.
pub open spec fn pattern_compiles(text: Seq<char>) -> bool {
    is_match_all_text(text) || regex_compiles(text)
}

/// Whether the pattern compiled from `text` matches `path`. A match-all text
/// matches every path; for any other text the engine decides.
pub open spec fn pattern_matches(text: Seq<char>, path: Seq<char>) -> bool {
    is_match_all_text(text) || regex_accepts(text, path)
}

/// Why the engine turned a pattern text down.
#[derive(Debug, PartialEq, Eq)]
pub enum CompileError {
    /// The compiled program would exceed the engine's size limit, which is given.
    TooBig(usize),
    /// The engine could not read the text; its message is given.
    Syntax(String),
}

/// Calls `Regex::new`. Whether the engine accepts the text depends on the
/// text alone, and is named, not defined. When it accepts, the text is what
/// the new engine reports as its source.
#[verifier::external_body]
fn regex_new(source: &str) -> (outcome: Result<Regex, regex::Error>)
    ensures
        outcome is Ok <==> regex_compiles(source@),
        outcome matches Ok(engine) ==> regex_source(engine) == source@,
{
    Regex::new(source)
}

/// Calls `Regex::is_match`: whether there is a match anywhere in the
/// haystack. The answer is taken to depend on the engine's source text and on
/// the haystack alone, which holds of engines made by `Regex::new`: it leaves
/// every option of the engine at its default. This module makes no others.
#[verifier::external_body]
fn regex_is_match(engine: &Regex, haystack: &str) -> (found: bool)
    ensures
        found == regex_accepts(regex_source(*engine), haystack@),
{
    engine.is_match(haystack)
}

/// Calls `Regex::clone`: the copy reports the same source text as the
/// engine it was made from.
#[verifier::external_body]
fn regex_clone(engine: &Regex) -> (copy: Regex)
    ensures
        regex_source(copy) == regex_source(*engine),
{
    engine.clone()
}

/// Calls `regex::escape` on the text that holds the one character `c`. The
/// outside function puts a backslash before each meta character of a text
/// and leaves every other character as it is.
#[verifier::external_body]
pub(crate) fn regex_escape(c: char) -> (quoted: String)
    ensures
        quoted@ == escaped_char(c),
{
    let mut buffer = [0u8; 4];
    regex::escape(c.encode_utf8(&mut buffer))
}

/// Tells the two kinds of `regex::Error` apart. Nothing is claimed of which
/// one comes out.
#[verifier::external_body]
fn error_from(error: regex::Error) -> CompileError {
    match error {
        regex::Error::CompiledTooBig(limit) => CompileError::TooBig(limit),
        other => CompileError::Syntax(other.to_string()),
    }
}

/// The characters of a text, in order.
pub fn chars_of(text: &str) -> (chars: Vec<char>)
    ensures
        chars@ == text@,
{
    let mut chars: Vec<char> = Vec::new();
    for c in it: text.chars()
        invariant
            it.seq() == text@,
            chars@ == it.seq().take(it.index()),
    {
        chars.push(c);
    }
    chars
}

/// Whether `text` begins with `prefix`.
pub fn begins_with(text: &str, prefix: &str) -> (begins: bool)
    ensures
        begins == prefix@.is_prefix_of(text@),
{
    let text_chars = chars_of(text);
    let prefix_chars = chars_of(prefix);
    if prefix_chars.len() > text_chars.len() {
        return false;
    }
    let mut i: usize = 0;
    while i < prefix_chars.len()
        invariant
            i <= prefix_chars.len() <= text_chars.len(),
            text_chars@ == text@,
            prefix_chars@ == prefix@,
            forall|k: int| 0 <= k < i ==> prefix@[k] == text@[k],
        decreases prefix_chars.len() - i,
    {
        if prefix_chars[i] != text_chars[i] {
            return false;
        }
        i += 1;
    }
    true
}

/// Whether a text, given by its characters, is a match-all text.
fn is_match_all_chars(chars: &Vec<char>) -> (all: bool)
    ensures
        all == is_match_all_text(chars@),
{
    if chars.len() == 0 {
        true
    } else if chars.len() == 2 {
        let all = chars[0] == '.' && chars[1] == '*';
        assert(all == (chars@ =~= seq!['.', '*']));
        all
    } else if chars.len() == 6 {
        let all = chars[0] == '(' && chars[1] == '?' && chars[2] == 's' && chars[3] == ')'
            && chars[4] == '.' && chars[5] == '*';
        assert(all == (chars@ =~= seq!['(', '?', 's', ')', '.', '*']));
        all
    } else {
        false
    }
}

/// A compiled pattern. Its view is the text it was compiled from, which
/// decides what it matches (see `pattern_matches`). A pattern of a match-all
/// text holds no engine: it matches every path by itself.
pub struct CompiledPattern {
    text: String,
    engine: Option<Regex>,
}

impl View for CompiledPattern {
    type V = Seq<char>;

    closed spec fn view(&self) -> Seq<char> {
        self.text@
    }
}

impl CompiledPattern {
    /// The engine, where there is one, was compiled from the text; there is
    /// none exactly where the text is a match-all text.
    #[verifier::type_invariant]
    spec fn engine_fits_text(&self) -> bool {
        match self.engine {
            Some(engine) => regex_source(engine) == self.text@ && !is_match_all_text(self.text@),
            None => is_match_all_text(self.text@),
        }
    }

    /// The pattern of the empty text, which matches every path. It needs no
    /// engine, so it is always there.
    pub fn match_all() -> (pattern: CompiledPattern)
        ensures
            pattern@ == Seq::<char>::empty(),
    {
        CompiledPattern { text: String::new(), engine: None }
    }

    /// Compiles `text` as it stands, in the engine's own syntax. A match-all
    /// text is not handed to the engine, and always gives a pattern. Any
    /// other text is handed to the engine, and gives a pattern exactly where
    /// the engine compiles it; where it does not, its reason is returned.
    pub fn new(text: &str) -> (outcome: Result<CompiledPattern, CompileError>)
        ensures
            outcome is Ok <==> pattern_compiles(text@),
            outcome matches Ok(pattern) ==> pattern@ == text@,
    {
        if is_match_all_chars(&chars_of(text)) {
            Ok(CompiledPattern { text: text.to_owned(), engine: None })
        } else {
            match regex_new(text) {
                Ok(engine) => Ok(CompiledPattern { text: text.to_owned(), engine: Some(engine) }),
                Err(error) => Err(error_from(error)),
            }
        }
    }

    /// The text the pattern was compiled from.
    pub fn as_str(&self) -> (text: &str)
        ensures
            text@ == self@,
    {
        self.text.as_str()
    }

    /// Whether this is a match-all pattern: one that matches every path
    /// without an engine being asked.
    pub fn is_match_all(&self) -> (all: bool)
        ensures
            all == is_match_all_text(self@),
    {
        proof {
            use_type_invariant(self);
        }
        self.engine.is_none()
    }

    /// Whether the pattern matches `path`.
    pub fn is_match(&self, path: &str) -> (found: bool)
        ensures
            found == pattern_matches(self@, path@),
    {
        proof {
            use_type_invariant(self);
        }
        match &self.engine {
            Some(engine) => regex_is_match(engine, path),
            None => true,
        }
    }

    /// Whether the text of this pattern begins with the text of `other`.
    pub fn starts_with(&self, other: &CompiledPattern) -> (begins: bool)
        ensures
            begins == other@.is_prefix_of(self@),
    {
        begins_with(self.as_str(), other.as_str())
    }
}

impl Clone for CompiledPattern {
    fn clone(&self) -> (copy: CompiledPattern)
        ensures
            copy@ == self@,
    {
        proof {
            use_type_invariant(self);
        }
        let engine = match &self.engine {
            Some(engine) => Some(regex_clone(engine)),
            None => None,
        };
        CompiledPattern { text: self.text.clone(), engine }
    }
}

/// A pattern that was compiled from a match-all text matches every path.
pub proof fn lemma_match_all_matches_everything(text: Seq<char>, path: Seq<char>)
    requires
        is_match_all_text(text),
    ensures
        pattern_matches(text, path),
{
}

} // verus!
