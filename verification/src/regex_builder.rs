//! The pattern compiler: from what the user typed to a fuzzy pattern.

use crate::pattern::{
    escaped_char, is_match_all_text, pattern_compiles, pattern_matches, regex_escape,
    CompileError, CompiledPattern,
};
use vstd::prelude::*;

verus! {

/// The upper-case letters that switch a search to case-sensitive matching.
pub open spec fn is_upper_case(c: char) -> bool {
    'A' <= c <= 'Z'
}

/// Whether the text holds an upper-case letter.
pub open spec fn has_upper_case(raw: Seq<char>) -> bool {
    exists|i: int| 0 <= i < raw.len() && is_upper_case(#[trigger] raw[i])
}

/// The flag that is written before every character of the search text: none
/// when the text holds an upper-case letter, else the one that makes the
/// engine ignore case.
pub open spec fn case_flag(raw: Seq<char>) -> Seq<char> {
    if has_upper_case(raw) {
        Seq::empty()
    } else {
        seq!['(', '?', 'i', ')']
    }
}

/// The flag that opens every fuzzy pattern. It lets "anything" stand for
/// line breaks too, so that any characters at all may lie between two
/// characters of the search text.
pub open spec fn any_character_flag() -> Seq<char> {
    seq!['(', '?', 's', ')']
}

/// What one character of the search text becomes: the flag, "anything", and
/// the character as a literal.
pub open spec fn fuzzy_piece(flag: Seq<char>, c: char) -> Seq<char> {
    flag + seq!['.', '*'] + escaped_char(c)
}

/// The text of the fuzzy pattern for `raw`: the opening flag, the piece of
/// each character in order, then "anything". For the empty text this is
/// `(?s).*`.
pub open spec fn fuzzy_text(raw: Seq<char>) -> Seq<char> {
    any_character_flag() + raw.map_values(|c: char| fuzzy_piece(case_flag(raw), c)).flatten()
        + seq!['.', '*']
}

/// Flattening after one more sequence was appended appends that sequence.
pub proof fn lemma_flatten_push<A>(parts: Seq<Seq<A>>, part: Seq<A>)
    ensures
        parts.push(part).flatten() == parts.flatten() + part,
{
    vstd::seq_lib::lemma_flatten_concat(parts, seq![part]);
    seq![part].lemma_flatten_one_element();
    assert(parts.push(part) =~= parts + seq![part]);
}

/// The fuzzy pattern for the empty search text is `(?s).*`, a match-all text.
pub proof fn lemma_empty_search_text_is_match_all(raw: Seq<char>)
    requires
        raw.len() == 0,
    ensures
        fuzzy_text(raw) == seq!['(', '?', 's', ')', '.', '*'],
        is_match_all_text(fuzzy_text(raw)),
{
    assert(fuzzy_text(raw) =~= seq!['(', '?', 's', ')', '.', '*']);
}

/// The pattern compiled from the empty search text matches every path.
pub proof fn lemma_empty_search_text_matches_everything(raw: Seq<char>, path: Seq<char>)
    requires
        raw.len() == 0,
    ensures
        pattern_matches(fuzzy_text(raw), path),
{
    lemma_empty_search_text_is_match_all(raw);
}

/// Builds the fuzzy pattern for a search text.
pub struct RegexBuilder {
    string: String,
}

impl View for RegexBuilder {
    type V = Seq<char>;

    /// The search text.
    closed spec fn view(&self) -> Seq<char> {
        self.string@
    }
}

impl RegexBuilder {
    /// A builder for the search text `string`.
    pub fn new(string: String) -> (builder: RegexBuilder)
        ensures
            builder@ == string@,
    {
        RegexBuilder { string }
    }

    /// The flag for this search text: empty when it holds one of the letters
    /// `A` to `Z`, else `(?i)`.
    pub fn global_flag(&self) -> (flag: &'static str)
        ensures
            flag@ == case_flag(self@),
    {
        let chars = crate::pattern::chars_of(self.string.as_str());
        let mut i: usize = 0;
        while i < chars.len()
            invariant
                i <= chars.len(),
                chars@ == self@,
                forall|k: int| 0 <= k < i ==> !is_upper_case(#[trigger] self@[k]),
            decreases chars.len() - i,
        {
            let c = chars[i];
            if 'A' <= c && c <= 'Z' {
                proof {
                    reveal_strlit("");
                }
                return "";
            }
            i += 1;
        }
        proof {
            reveal_strlit("(?i)");
        }
        "(?i)"
    }

    /// The text that is handed to the engine.
    pub fn pattern_text(&self) -> (text: String)
        ensures
            text@ == fuzzy_text(self@),
    {
        let flag = self.global_flag();
        let chars = crate::pattern::chars_of(self.string.as_str());
        let ghost piece = |c: char| fuzzy_piece(case_flag(self@), c);
        let mut text = String::new();
        text.append("(?s)");
        let mut i: usize = 0;
        proof {
            reveal_strlit(".*");
            reveal_strlit("(?s)");
        }
        while i < chars.len()
            invariant
                i <= chars.len(),
                chars@ == self@,
                flag@ == case_flag(self@),
                ".*"@ == seq!['.', '*'],
                piece == |c: char| fuzzy_piece(case_flag(self@), c),
                text@ == any_character_flag() + self@.take(i as int).map_values(piece).flatten(),
            decreases chars.len() - i,
        {
            let quoted = regex_escape(chars[i]);
            proof {
                let done = self@.take(i as int).map_values(piece);
                lemma_flatten_push(done, piece(self@[i as int]));
                assert(self@.take(i + 1).map_values(piece) =~= done.push(piece(self@[i as int])));
            }
            text.append(flag);
            text.append(".*");
            text.append(quoted.as_str());
            i += 1;
        }
        assert(self@.take(i as int) =~= self@);
        text.append(".*");
        text
    }

    /// Compiles the fuzzy pattern for the search text. Every character of the
    /// text is written as a literal, so the text cannot be misread as syntax.
    /// The pattern is returned exactly where there is one for the fuzzy text:
    /// always for the empty search text, and for any other where the engine
    /// compiles the fuzzy text, which it refuses only for its size. Where
    /// there is none, the engine's reason is returned.
    pub fn build(&self) -> (outcome: Result<CompiledPattern, CompileError>)
        ensures
            outcome is Ok <==> pattern_compiles(fuzzy_text(self@)),
            outcome matches Ok(pattern) ==> pattern@ == fuzzy_text(self@),
            self@.len() == 0 ==> outcome is Ok,
    {
        let text = self.pattern_text();
        proof {
            if self@.len() == 0 {
                lemma_empty_search_text_is_match_all(self@);
            }
        }
        CompiledPattern::new(text.as_str())
    }
}

} // verus!
