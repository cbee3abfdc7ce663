use vstd::prelude::*;
use vstd::string::StrSliceExecFns;

verus! {

/// One of the three independently balanced bracket kinds.
#[derive(Debug, Clone, Copy, PartialEq, Eq, Structural)]
pub enum Wrapping {
    Paren,
    Curly,
    Square,
}

/// A minimal classified chunk of input text, before semantic role assignment.
#[derive(Debug, Clone, PartialEq)]
pub enum Lexeme {
    /// A contiguous run of ASCII digits and decimal points, unvalidated.
    Number(String),
    /// A contiguous run starting alphabetic, continuing alphanumeric.
    Identifier(String),
    /// One character from the fixed symbol set.
    Special(char),
    /// An opening bracket of the given kind.
    LeftWrap(Wrapping),
    /// A closing bracket of the given kind.
    RightWrap(Wrapping),
    /// Any other non-whitespace character, passed through for the resolver
    /// to reject.
    Unknown(char),
}

/// Mathematical model of a lexeme: its text as a character sequence.
pub enum LexemeV {
    Number(Seq<char>),
    Identifier(Seq<char>),
    Special(char),
    LeftWrap(Wrapping),
    RightWrap(Wrapping),
    Unknown(char),
}

impl View for Lexeme {
    type V = LexemeV;

    open spec fn view(&self) -> LexemeV {
        match self {
            Lexeme::Number(s) => LexemeV::Number(s@),
            Lexeme::Identifier(s) => LexemeV::Identifier(s@),
            Lexeme::Special(c) => LexemeV::Special(*c),
            Lexeme::LeftWrap(w) => LexemeV::LeftWrap(*w),
            Lexeme::RightWrap(w) => LexemeV::RightWrap(*w),
            Lexeme::Unknown(c) => LexemeV::Unknown(*c),
        }
    }
}

/// The views of a sequence of lexemes.
pub open spec fn lexemes_view(s: Seq<Lexeme>) -> Seq<LexemeV> {
    s.map_values(|l: Lexeme| l@)
}

/// The view of an optional lexeme.
pub open spec fn opt_lexeme_view(r: Option<Lexeme>) -> Option<LexemeV> {
    match r {
        Some(l) => Some(l@),
        None => None,
    }
}

/// Whether the character is one of the fixed special symbols that become
/// single-character `Special` lexemes.
pub open spec fn is_special_char(c: char) -> bool {
    c == '~' || c == '`' || c == '!' || c == '@' || c == '#' || c == '$' || c == '%' || c == '^'
        || c == '&' || c == '*' || c == '-' || c == '+' || c == '=' || c == '|' || c == ':' || c
        == '/' || c == '?' || c == '<' || c == '>'
}

/// Whether the character is an ASCII letter (code points of `A`..`Z` or
/// `a`..`z`).
pub open spec fn is_ascii_alpha(c: char) -> bool {
    (65 <= c as u32 && c as u32 <= 90) || (97 <= c as u32 && c as u32 <= 122)
}

/// Whether the character is an ASCII digit (code points of `0`..`9`).
pub open spec fn is_ascii_digit_char(c: char) -> bool {
    48 <= c as u32 && c as u32 <= 57
}

/// Whether the character continues a number lexeme: an ASCII digit or the
/// decimal point.
pub open spec fn is_num_char(c: char) -> bool {
    is_ascii_digit_char(c) || c == '.'
}

/// The bracket lexeme a character denotes, if any.
pub open spec fn wrap_lexeme_of(c: char) -> Option<LexemeV> {
    if c == '(' {
        Some(LexemeV::LeftWrap(Wrapping::Paren))
    } else if c == ')' {
        Some(LexemeV::RightWrap(Wrapping::Paren))
    } else if c == '{' {
        Some(LexemeV::LeftWrap(Wrapping::Curly))
    } else if c == '}' {
        Some(LexemeV::RightWrap(Wrapping::Curly))
    } else if c == '[' {
        Some(LexemeV::LeftWrap(Wrapping::Square))
    } else if c == ']' {
        Some(LexemeV::RightWrap(Wrapping::Square))
    } else {
        None
    }
}

/// Whether `char::is_alphanumeric` holds: membership in the Unicode
/// alphabetic and numeric classes, a function of the character alone.
pub uninterp spec fn alnum_of(c: char) -> bool;

/// Whether `char::is_whitespace` holds: membership in the Unicode whitespace
/// class, a function of the character alone.
pub uninterp spec fn white_of(c: char) -> bool;

/// Relies on `char::is_alphanumeric`: Unicode class membership is a function
/// of the character alone.
#[verifier::external_body]
pub(crate) fn char_is_alphanumeric(c: char) -> (r: bool)
    ensures
        r == alnum_of(c),
{
    c.is_alphanumeric()
}

/// Relies on `char::is_whitespace`: Unicode class membership is a function
/// of the character alone.
#[verifier::external_body]
pub(crate) fn char_is_whitespace(c: char) -> (r: bool)
    ensures
        r == white_of(c),
{
    c.is_whitespace()
}

/// The length of the run of alphanumeric characters starting at `i`.
pub open spec fn alnum_run(s: Seq<char>, i: int) -> nat
    decreases s.len() - i,
{
    if 0 <= i < s.len() && alnum_of(s[i]) {
        1 + alnum_run(s, i + 1)
    } else {
        0
    }
}

/// The length of the run of digit-or-point characters starting at `i`.
pub open spec fn num_run(s: Seq<char>, i: int) -> nat
    decreases s.len() - i,
{
    if 0 <= i < s.len() && is_num_char(s[i]) {
        1 + num_run(s, i + 1)
    } else {
        0
    }
}

/// A run never passes the end of the sequence.
pub proof fn lemma_alnum_run_le(s: Seq<char>, i: int)
    requires
        0 <= i,
    ensures
        i + alnum_run(s, i) <= s.len() || alnum_run(s, i) == 0,
    decreases s.len() - i,
{
    if i < s.len() && alnum_of(s[i]) {
        lemma_alnum_run_le(s, i + 1);
    }
}

/// A run never passes the end of the sequence.
pub proof fn lemma_num_run_le(s: Seq<char>, i: int)
    requires
        0 <= i,
    ensures
        i + num_run(s, i) <= s.len() || num_run(s, i) == 0,
    decreases s.len() - i,
{
    if i < s.len() && is_num_char(s[i]) {
        lemma_num_run_le(s, i + 1);
    }
}

/// A run is exactly the distance to the first character that breaks it.
pub proof fn lemma_alnum_run_exact(s: Seq<char>, a: int, b: int)
    requires
        0 <= a <= b <= s.len(),
        forall|m: int| a <= m < b ==> alnum_of(s[m]),
        b == s.len() || !alnum_of(s[b]),
    ensures
        alnum_run(s, a) == b - a,
    decreases b - a,
{
    if a < b {
        lemma_alnum_run_exact(s, a + 1, b);
    }
}

/// A run is exactly the distance to the first character that breaks it.
pub proof fn lemma_num_run_exact(s: Seq<char>, a: int, b: int)
    requires
        0 <= a <= b <= s.len(),
        forall|m: int| a <= m < b ==> is_num_char(s[m]),
        b == s.len() || !is_num_char(s[b]),
    ensures
        num_run(s, a) == b - a,
    decreases b - a,
{
    if a < b {
        lemma_num_run_exact(s, a + 1, b);
    }
}

/// The lexemes of the input from position `i` on. Each step consumes at
/// least one character: a special symbol, a maximal identifier run, a
/// maximal number run, a bracket, a silently dropped whitespace character,
/// or one unknown character passed through.
pub open spec fn spec_lex_from(s: Seq<char>, i: int) -> Seq<LexemeV>
    decreases s.len() - i,
{
    if i < 0 || i >= s.len() {
        Seq::empty()
    } else {
        let c = s[i];
        if is_special_char(c) {
            seq![LexemeV::Special(c)] + spec_lex_from(s, i + 1)
        } else if is_ascii_alpha(c) {
            let k = alnum_run(s, i + 1);
            proof {
                lemma_alnum_run_le(s, i + 1);
            }
            seq![LexemeV::Identifier(s.subrange(i, i + 1 + k))] + spec_lex_from(s, i + 1 + k)
        } else if is_ascii_digit_char(c) {
            let k = num_run(s, i + 1);
            proof {
                lemma_num_run_le(s, i + 1);
            }
            seq![LexemeV::Number(s.subrange(i, i + 1 + k))] + spec_lex_from(s, i + 1 + k)
        } else {
            match wrap_lexeme_of(c) {
                Some(w) => seq![w] + spec_lex_from(s, i + 1),
                None => {
                    if white_of(c) {
                        spec_lex_from(s, i + 1)
                    } else {
                        seq![LexemeV::Unknown(c)] + spec_lex_from(s, i + 1)
                    }
                },
            }
        }
    }
}

/// The lexemes of the whole input.
pub open spec fn spec_lex(s: Seq<char>) -> Seq<LexemeV> {
    spec_lex_from(s, 0)
}

fn is_special(c: char) -> (r: bool)
    ensures
        r == is_special_char(c),
{
    c == '~' || c == '`' || c == '!' || c == '@' || c == '#' || c == '$' || c == '%' || c == '^'
        || c == '&' || c == '*' || c == '-' || c == '+' || c == '=' || c == '|' || c == ':' || c
        == '/' || c == '?' || c == '<' || c == '>'
}

fn is_alpha(c: char) -> (r: bool)
    ensures
        r == is_ascii_alpha(c),
{
    (65 <= c as u32 && c as u32 <= 90) || (97 <= c as u32 && c as u32 <= 122)
}

fn is_digit(c: char) -> (r: bool)
    ensures
        r == is_ascii_digit_char(c),
{
    48 <= c as u32 && c as u32 <= 57
}

fn is_num(c: char) -> (r: bool)
    ensures
        r == is_num_char(c),
{
    is_digit(c) || c == '.'
}

/// The bracket lexeme a character denotes, if any.
pub fn match_wrapping_char(c: char) -> (r: Option<Lexeme>)
    ensures
        opt_lexeme_view(r) == wrap_lexeme_of(c),
{
    if c == '(' {
        Some(Lexeme::LeftWrap(Wrapping::Paren))
    } else if c == ')' {
        Some(Lexeme::RightWrap(Wrapping::Paren))
    } else if c == '{' {
        Some(Lexeme::LeftWrap(Wrapping::Curly))
    } else if c == '}' {
        Some(Lexeme::RightWrap(Wrapping::Curly))
    } else if c == '[' {
        Some(Lexeme::LeftWrap(Wrapping::Square))
    } else if c == ']' {
        Some(Lexeme::RightWrap(Wrapping::Square))
    } else {
        None
    }
}

/// Classifies the whole input into an ordered sequence of lexemes. This
/// stage is total: no input is rejected here.
pub fn lex(input: String) -> (r: Vec<Lexeme>)
    ensures
        lexemes_view(r@) == spec_lex(input@),
{
    let s = input.as_str();
    let n = s.unicode_len();
    let mut lexemes: Vec<Lexeme> = Vec::new();
    let mut i: usize = 0;
    while i < n
        invariant
            n == s@.len(),
            s@ == input@,
            i <= n,
            lexemes_view(lexemes@) + spec_lex_from(s@, i as int) == spec_lex(input@),
        decreases n - i,
    {
        let ghost prev = lexemes@;
        let c = s.get_char(i);
        if is_special(c) {
            lexemes.push(Lexeme::Special(c));
            proof {
                assert(lexemes_view(lexemes@) =~= lexemes_view(prev) + seq![LexemeV::Special(c)]);
                assert(lexemes_view(lexemes@) + spec_lex_from(s@, i + 1) =~= spec_lex(input@));
            }
            i = i + 1;
        } else if is_alpha(c) {
            let mut j = i + 1;
            while j < n && char_is_alphanumeric(s.get_char(j))
                invariant
                    n == s@.len(),
                    i < j <= n,
                    forall|m: int| i + 1 <= m < j ==> alnum_of(s@[m]),
                decreases n - j,
            {
                j = j + 1;
            }
            proof {
                lemma_alnum_run_exact(s@, i + 1, j as int);
            }
            let text = s.substring_char(i, j).to_owned();
            lexemes.push(Lexeme::Identifier(text));
            proof {
                assert(lexemes_view(lexemes@) =~= lexemes_view(prev) + seq![
                    LexemeV::Identifier(s@.subrange(i as int, j as int)),
                ]);
                assert(lexemes_view(lexemes@) + spec_lex_from(s@, j as int) =~= spec_lex(input@));
            }
            i = j;
        } else if is_digit(c) {
            let mut j = i + 1;
            while j < n && is_num(s.get_char(j))
                invariant
                    n == s@.len(),
                    i < j <= n,
                    forall|m: int| i + 1 <= m < j ==> is_num_char(s@[m]),
                decreases n - j,
            {
                j = j + 1;
            }
            proof {
                lemma_num_run_exact(s@, i + 1, j as int);
            }
            let text = s.substring_char(i, j).to_owned();
            lexemes.push(Lexeme::Number(text));
            proof {
                assert(lexemes_view(lexemes@) =~= lexemes_view(prev) + seq![
                    LexemeV::Number(s@.subrange(i as int, j as int)),
                ]);
                assert(lexemes_view(lexemes@) + spec_lex_from(s@, j as int) =~= spec_lex(input@));
            }
            i = j;
        } else if let Some(grp) = match_wrapping_char(c) {
            lexemes.push(grp);
            proof {
                assert(lexemes_view(lexemes@) =~= lexemes_view(prev) + seq![grp@]);
                assert(lexemes_view(lexemes@) + spec_lex_from(s@, i + 1) =~= spec_lex(input@));
            }
            i = i + 1;
        } else if char_is_whitespace(c) {
            i = i + 1;
        } else {
            lexemes.push(Lexeme::Unknown(c));
            proof {
                assert(lexemes_view(lexemes@) =~= lexemes_view(prev) + seq![LexemeV::Unknown(c)]);
                assert(lexemes_view(lexemes@) + spec_lex_from(s@, i + 1) =~= spec_lex(input@));
            }
            i = i + 1;
        }
    }
    proof {
        assert(lexemes_view(lexemes@) =~= spec_lex(input@));
    }
    lexemes
}

} // verus!
