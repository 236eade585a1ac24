//! The answer table: classifies a trimmed input line, case-insensitively,
//! as affirmative, negative, or unrecognized; optional alias and emoji
//! vocabularies can be switched on per call.

use vstd::prelude::*;
use vstd::string::StrSliceExecFns;

verus! {

/// The three classifications a trimmed input line can receive.
#[derive(Clone, Copy, Debug, PartialEq, Eq, Structural)]
pub enum Answer {
    Affirmative,
    Negative,
    Unrecognized,
}

/// Which optional extensions of the answer table are switched on.
#[derive(Clone, Copy, Debug, PartialEq, Eq, Structural)]
pub struct AnswerOptions {
    /// Recognize casual aliases such as `sure` and `nope`.
    pub aliases: bool,
    /// Recognize the emoji answers.
    pub emoji: bool,
}

/// The base table alone: `y`/`yes` and `n`/`no`.
pub open spec fn base_options() -> AnswerOptions {
    AnswerOptions { aliases: false, emoji: false }
}

impl AnswerOptions {
    /// The base table alone: `y`/`yes` and `n`/`no`.
    pub fn base() -> (o: AnswerOptions)
        ensures
            o == base_options(),
    {
        AnswerOptions { aliases: false, emoji: false }
    }
}

/// An ASCII capital letter mapped to its small form; every other character
/// is left alone.
pub open spec fn lower_char(c: char) -> char {
    if 'A' <= c && c <= 'Z' {
        ((c as u8) + 32) as char
    } else {
        c
    }
}

/// A sequence of characters, each lowered by `lower_char`.
pub open spec fn lower(s: Seq<char>) -> Seq<char> {
    s.map_values(|c: char| lower_char(c))
}

/// The lowered lines the table reads as a yes.
pub open spec fn is_affirmative_word(l: Seq<char>, opts: AnswerOptions) -> bool {
    ||| l == "y"@
    ||| l == "yes"@
    ||| opts.aliases && (l == "yeah"@ || l == "sure"@ || l == "yep"@ || l == "true"@ || l
        == "go"@)
    ||| opts.emoji && l == "🆗"@
}

/// The lowered lines the table reads as a no.
pub open spec fn is_negative_word(l: Seq<char>, opts: AnswerOptions) -> bool {
    ||| l == "n"@
    ||| l == "no"@
    ||| opts.aliases && (l == "nope"@ || l == "false"@ || l == "never"@ || l == "stop"@)
    ||| opts.emoji && l == "🆖"@
}

/// The answer table: the lowered line matched, whole, against the
/// recognized affirmative and negative words of the selected vocabularies.
pub open spec fn answer_of_with(s: Seq<char>, opts: AnswerOptions) -> Answer {
    let l = lower(s);
    if is_affirmative_word(l, opts) {
        Answer::Affirmative
    } else if is_negative_word(l, opts) {
        Answer::Negative
    } else {
        Answer::Unrecognized
    }
}

/// The base answer table applied to a line.
pub open spec fn answer_of(s: Seq<char>) -> Answer {
    answer_of_with(s, base_options())
}

/// `lower_char` for execution.
fn lower_char_exec(c: char) -> (r: char)
    ensures
        r == lower_char(c),
{
    if 'A' <= c && c <= 'Z' {
        ((c as u8) + 32) as char
    } else {
        c
    }
}

/// The lowered line, position by position.
proof fn lemma_lower_index(s: Seq<char>, i: int)
    requires
        0 <= i < s.len(),
    ensures
        lower(s).len() == s.len(),
        lower(s)[i] == lower_char(s[i]),
{
}

/// Whether the lowered line is exactly `word`.
fn matches_word(line: &str, word: &str) -> (r: bool)
    ensures
        r == (lower(line@) == word@),
{
    let n = line.unicode_len();
    if n != word.unicode_len() {
        proof {
            assert(lower(line@).len() == line@.len());
        }
        return false;
    }
    let mut i: usize = 0;
    while i < n
        invariant
            i <= n,
            n == line@.len(),
            n == word@.len(),
            forall|j: int| 0 <= j < i ==> lower(line@)[j] == word@[j],
        decreases n - i,
    {
        let c = lower_char_exec(line.get_char(i));
        let w = word.get_char(i);
        proof {
            lemma_lower_index(line@, i as int);
        }
        if c != w {
            return false;
        }
        i = i + 1;
    }
    proof {
        assert(lower(line@) =~= word@);
    }
    true
}

/// Classifies one trimmed line against the answer table, ignoring case,
/// with the selected optional vocabularies switched on.
pub fn answer_with(line: &str, opts: AnswerOptions) -> (r: Answer)
    ensures
        r == answer_of_with(line@, opts),
{
    if matches_word(line, "y") || matches_word(line, "yes") || (opts.aliases && (matches_word(
        line,
        "yeah",
    ) || matches_word(line, "sure") || matches_word(line, "yep") || matches_word(line, "true")
        || matches_word(line, "go"))) || (opts.emoji && matches_word(line, "🆗")) {
        Answer::Affirmative
    } else if matches_word(line, "n") || matches_word(line, "no") || (opts.aliases && (
    matches_word(line, "nope") || matches_word(line, "false") || matches_word(line, "never")
        || matches_word(line, "stop"))) || (opts.emoji && matches_word(line, "🆖")) {
        Answer::Negative
    } else {
        Answer::Unrecognized
    }
}

/// Classifies one trimmed line against the base answer table, ignoring
/// case.
pub fn answer(line: &str) -> (r: Answer)
    ensures
        r == answer_of(line@),
{
    answer_with(line, AnswerOptions::base())
}

/// Lowering a character twice is the same as lowering it once.
pub proof fn lemma_lower_char_idempotent(c: char)
    ensures
        lower_char(lower_char(c)) == lower_char(c),
{
}

/// Lowering a line twice is the same as lowering it once.
pub proof fn lemma_lower_idempotent(s: Seq<char>)
    ensures
        lower(lower(s)) == lower(s),
{
    assert forall|i: int| 0 <= i < s.len() implies lower(lower(s))[i] == lower(s)[i] by {
        lemma_lower_char_idempotent(s[i]);
    }
    assert(lower(lower(s)) =~= lower(s));
}

/// Classification ignores case: a line and its lowered form receive the
/// same classification, whichever vocabularies are switched on.
pub proof fn lemma_answer_case_insensitive(s: Seq<char>, opts: AnswerOptions)
    ensures
        answer_of_with(lower(s), opts) == answer_of_with(s, opts),
{
    lemma_lower_idempotent(s);
}

/// Classification is a pure function of the characters and the selected
/// vocabularies: equal lines always receive equal classifications, however
/// often the question is asked.
pub proof fn lemma_answer_deterministic(s1: Seq<char>, s2: Seq<char>, opts: AnswerOptions)
    requires
        s1 == s2,
    ensures
        answer_of_with(s1, opts) == answer_of_with(s2, opts),
{
}

} // verus!
