//! Text post-processing: spoken-punctuation substitution, capitalization,
//! space collapsing, and terminal punctuation.

use vstd::prelude::*;
use crate::textops::{
    capitalize_first, capitalize_first_chars, chars_string, collapse_spaces,
    collapse_spaces_chars, is_ascii_lower, lemma_collapse_spaces_first,
    lemma_collapse_spaces_single, lemma_replace_all_absent, lemma_replace_all_nonempty,
    no_occurrence, replace_all, replace_all_chars, str_chars,
};

verus! {

/// How a raw transcript is rendered before injection.
#[derive(Debug, Clone, Copy, PartialEq, Eq, Structural)]
pub enum TranscriptionMode {
    /// The transcript is delivered exactly as the provider returned it.
    Lightning,
    /// Spoken punctuation is substituted and the text is tidied.
    Formatted,
}

/// The spoken phrase that becomes a line break.
pub open spec fn new_line_phrase() -> Seq<char> {
    seq![' ', 'n', 'e', 'w', ' ', 'l', 'i', 'n', 'e']
}

/// The spoken phrase that becomes a comma.
pub open spec fn comma_phrase() -> Seq<char> {
    seq![' ', 'c', 'o', 'm', 'm', 'a']
}

/// The spoken phrase that becomes a period.
pub open spec fn period_phrase() -> Seq<char> {
    seq![' ', 'p', 'e', 'r', 'i', 'o', 'd']
}

/// The spoken phrase that becomes a question mark.
pub open spec fn question_phrase() -> Seq<char> {
    seq![' ', 'q', 'u', 'e', 's', 't', 'i', 'o', 'n', ' ', 'm', 'a', 'r', 'k']
}

/// The spoken phrase that becomes an exclamation point.
pub open spec fn exclamation_phrase() -> Seq<char> {
    seq![' ', 'e', 'x', 'c', 'l', 'a', 'm', 'a', 't', 'i', 'o', 'n', ' ', 'p', 'o', 'i', 'n', 't']
}

/// The five spoken-punctuation substitutions, applied in order.
pub open spec fn voice_substituted(s: Seq<char>) -> Seq<char> {
    replace_all(
        replace_all(
            replace_all(
                replace_all(replace_all(s, new_line_phrase(), seq!['\n']), comma_phrase(), seq![',']),
                period_phrase(),
                seq!['.'],
            ),
            question_phrase(),
            seq!['?'],
        ),
        exclamation_phrase(),
        seq!['!'],
    )
}

/// Terminal punctuation: a sentence may end in one of these.
pub open spec fn is_terminal_char(c: char) -> bool {
    c == '.' || c == '!' || c == '?'
}

/// `s` with a period appended when it is nonempty and does not already end in
/// terminal punctuation.
pub open spec fn append_period(s: Seq<char>) -> Seq<char> {
    if s.len() > 0 && !is_terminal_char(s[s.len() - 1]) {
        s.push('.')
    } else {
        s
    }
}

/// The full formatting pass: substitute spoken punctuation, capitalize the
/// first letter, collapse runs of spaces, and end with terminal punctuation.
pub open spec fn formatted(s: Seq<char>) -> Seq<char> {
    append_period(collapse_spaces(capitalize_first(voice_substituted(s))))
}

/// What `FormattingEngine::format` returns in each mode.
pub open spec fn format_spec(mode: TranscriptionMode, s: Seq<char>) -> Seq<char> {
    match mode {
        TranscriptionMode::Lightning => s,
        TranscriptionMode::Formatted => formatted(s),
    }
}

/// Applies the formatting pass selected by its mode to raw transcripts.
pub struct FormattingEngine {
    mode: TranscriptionMode,
}

impl FormattingEngine {
    /// The currently selected mode.
    pub closed spec fn spec_mode(&self) -> TranscriptionMode {
        self.mode
    }

    pub fn new(mode: TranscriptionMode) -> (r: Self)
        ensures
            r.spec_mode() == mode,
    {
        FormattingEngine { mode }
    }

    pub fn set_mode(&mut self, mode: TranscriptionMode)
        ensures
            final(self).spec_mode() == mode,
    {
        self.mode = mode;
    }

    /// Renders `text` according to the current mode: unchanged in Lightning
    /// mode, fully formatted in Formatted mode.
    pub fn format(&self, text: &str) -> (r: String)
        ensures
            r@ == format_spec(self.spec_mode(), text@),
    {
        match self.mode {
            TranscriptionMode::Lightning => text.to_owned(),
            TranscriptionMode::Formatted => self.apply_formatting(text),
        }
    }

    fn apply_formatting(&self, text: &str) -> (r: String)
        ensures
            r@ == formatted(text@),
    {
        let chars = str_chars(text);

        let p_new_line = str_chars(" new line");
        let p_comma = str_chars(" comma");
        let p_period = str_chars(" period");
        let p_question = str_chars(" question mark");
        let p_exclamation = str_chars(" exclamation point");
        proof {
            reveal_strlit(" new line");
            reveal_strlit(" comma");
            reveal_strlit(" period");
            reveal_strlit(" question mark");
            reveal_strlit(" exclamation point");
            assert(p_new_line@ =~= new_line_phrase());
            assert(p_comma@ =~= comma_phrase());
            assert(p_period@ =~= period_phrase());
            assert(p_question@ =~= question_phrase());
            assert(p_exclamation@ =~= exclamation_phrase());
        }

        let mut r_break: Vec<char> = Vec::new();
        r_break.push('\n');
        let mut r_comma: Vec<char> = Vec::new();
        r_comma.push(',');
        let mut r_period: Vec<char> = Vec::new();
        r_period.push('.');
        let mut r_question: Vec<char> = Vec::new();
        r_question.push('?');
        let mut r_exclamation: Vec<char> = Vec::new();
        r_exclamation.push('!');
        proof {
            assert(r_break@ =~= seq!['\n']);
            assert(r_comma@ =~= seq![',']);
            assert(r_period@ =~= seq!['.']);
            assert(r_question@ =~= seq!['?']);
            assert(r_exclamation@ =~= seq!['!']);
        }

        let s1 = replace_all_chars(&chars, &p_new_line, &r_break);
        let s2 = replace_all_chars(&s1, &p_comma, &r_comma);
        let s3 = replace_all_chars(&s2, &p_period, &r_period);
        let s4 = replace_all_chars(&s3, &p_question, &r_question);
        let s5 = replace_all_chars(&s4, &p_exclamation, &r_exclamation);
        proof {
            assert(s5@ == voice_substituted(text@));
        }

        let capitalized = capitalize_first_chars(&s5);
        let mut collapsed = collapse_spaces_chars(&capitalized);

        if collapsed.len() > 0 {
            let last = collapsed[collapsed.len() - 1];
            if !(last == '.' || last == '!' || last == '?') {
                collapsed.push('.');
            }
        }
        proof {
            assert(collapsed@ == formatted(text@));
        }
        chars_string(&collapsed)
    }
}

/// Text that the formatting pass leaves unchanged: it contains none of the
/// five spoken-punctuation phrases, has no two adjacent spaces, does not
/// start with a lowercase letter, and ends in terminal punctuation.
pub open spec fn is_fully_formatted(s: Seq<char>) -> bool {
    &&& no_occurrence(s, new_line_phrase())
    &&& no_occurrence(s, comma_phrase())
    &&& no_occurrence(s, period_phrase())
    &&& no_occurrence(s, question_phrase())
    &&& no_occurrence(s, exclamation_phrase())
    &&& no_occurrence(s, seq![' ', ' '])
    &&& (s.len() > 0 ==> !is_ascii_lower(s[0]))
    &&& s.len() > 0
    &&& is_terminal_char(s[s.len() - 1])
}

/// The shape of formatted output: a nonempty input formats to a nonempty
/// text that ends in terminal punctuation and does not start with a
/// lowercase letter.
pub proof fn lemma_formatted_shape(s: Seq<char>)
    requires
        s.len() > 0,
    ensures
        formatted(s).len() > 0,
        is_terminal_char(formatted(s)[formatted(s).len() - 1]),
        !is_ascii_lower(formatted(s)[0]),
{
    lemma_replace_all_nonempty(s, new_line_phrase(), seq!['\n']);
    let s1 = replace_all(s, new_line_phrase(), seq!['\n']);
    lemma_replace_all_nonempty(s1, comma_phrase(), seq![',']);
    let s2 = replace_all(s1, comma_phrase(), seq![',']);
    lemma_replace_all_nonempty(s2, period_phrase(), seq!['.']);
    let s3 = replace_all(s2, period_phrase(), seq!['.']);
    lemma_replace_all_nonempty(s3, question_phrase(), seq!['?']);
    let s4 = replace_all(s3, question_phrase(), seq!['?']);
    lemma_replace_all_nonempty(s4, exclamation_phrase(), seq!['!']);
    let v = voice_substituted(s);
    let c = capitalize_first(v);
    assert(c.len() == v.len());
    assert(!is_ascii_lower(c[0]));
    lemma_collapse_spaces_first(c);
    let k = collapse_spaces(c);
    assert(!is_ascii_lower(k[0]));
    if !is_terminal_char(k[k.len() - 1]) {
        assert(formatted(s) == k.push('.'));
        assert(is_terminal_char(formatted(s)[formatted(s).len() - 1]));
    }
}

/// Formatting is idempotent on formatted text: a second formatting pass over
/// text that is already fully formatted returns it unchanged.
pub proof fn lemma_formatter_idempotent(s: Seq<char>)
    requires
        is_fully_formatted(s),
    ensures
        formatted(s) == s,
{
    lemma_replace_all_absent(s, new_line_phrase(), seq!['\n']);
    lemma_replace_all_absent(s, comma_phrase(), seq![',']);
    lemma_replace_all_absent(s, period_phrase(), seq!['.']);
    lemma_replace_all_absent(s, question_phrase(), seq!['?']);
    lemma_replace_all_absent(s, exclamation_phrase(), seq!['!']);
    assert(voice_substituted(s) == s);
    assert(capitalize_first(s) == s);
    lemma_collapse_spaces_single(s);
    assert(append_period(s) == s);
}

} // verus!
