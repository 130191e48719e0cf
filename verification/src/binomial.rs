//! The exercise style of an option priced on a binomial tree, and how it is
//! read from text.

use vstd::prelude::*;

use crate::error::PyoptxError;
use crate::text::{
    all_white_space, ascii_case_variant, ascii_lowercase, lemma_normalize_ignores_padding_and_case,
    lemma_padded_case_variant_reads_as, normalize, padding, same_text, to_ascii_lowercase,
    trim_whitespace,
};

verus! {

/// Exercise style.
#[derive(Debug, Clone, Copy, PartialEq, Eq)]
pub enum Exercise {
    European,
    American,
}

/// The exercise style that a normalised name stands for, if any:
/// `european`/`euro`/`eu` or `american`/`amer`/`us`.
pub open spec fn exercise_named(name: Seq<char>) -> Option<Exercise> {
    if name == "european"@ || name == "euro"@ || name == "eu"@ {
        Some(Exercise::European)
    } else if name == "american"@ || name == "amer"@ || name == "us"@ {
        Some(Exercise::American)
    } else {
        None
    }
}

/// The detail message of the error for an unknown exercise style, given the
/// normalised text that was read.
pub open spec fn exercise_error_text(name: Seq<char>) -> Seq<char> {
    "exercise must be 'european' or 'american', got '"@ + name + "'"@
}

/// What `Exercise::parse` gives for the text `s`.
pub open spec fn exercise_parse_result(s: Seq<char>, res: Result<Exercise, PyoptxError>) -> bool {
    match exercise_named(normalize(s)) {
        Some(e) => res == Ok::<Exercise, PyoptxError>(e),
        None => res matches Err(PyoptxError::InvalidInput(msg)) && msg@ == exercise_error_text(
            normalize(s),
        ),
    }
}

/// Reading an exercise style ignores whitespace around the text and the case of its
/// ASCII letters: `Exercise::parse` gives for `p + u + q`, with `p` and `q`
/// whitespace and `u` equal to `s` up to ASCII case, exactly what it gives
/// for `s`.
pub proof fn lemma_exercise_parse_ignores_padding_and_case(
    p: Seq<char>,
    u: Seq<char>,
    q: Seq<char>,
    s: Seq<char>,
    res: Result<Exercise, PyoptxError>,
)
    requires
        all_white_space(p),
        all_white_space(q),
        ascii_lowercase(u) == ascii_lowercase(s),
    ensures
        exercise_parse_result(p + u + q, res) <==> exercise_parse_result(s, res),
{
    lemma_normalize_ignores_padding_and_case(p, u, q, s);
}

/// Every accepted spelling of an exercise style is read as that kind, whatever the
/// case of its ASCII letters and whatever Unicode whitespace surrounds it
/// (for instance a trailing carriage return and line feed).
pub proof fn lemma_exercise_parse_accepts_spellings(
    p: Seq<char>,
    u: Seq<char>,
    q: Seq<char>,
    res: Result<Exercise, PyoptxError>,
)
    requires
        padding(p),
        padding(q),
        exercise_parse_result(p + u + q, res),
    ensures
        (ascii_case_variant(u, "european"@)
            || ascii_case_variant(u, "euro"@)
            || ascii_case_variant(u, "eu"@))
            ==> res == Ok::<Exercise, PyoptxError>(Exercise::European),
        (ascii_case_variant(u, "american"@)
            || ascii_case_variant(u, "amer"@)
            || ascii_case_variant(u, "us"@))
            ==> res == Ok::<Exercise, PyoptxError>(Exercise::American),
{
    reveal_strlit("european");
    reveal_strlit("euro");
    reveal_strlit("eu");
    reveal_strlit("american");
    reveal_strlit("amer");
    reveal_strlit("us");
    if ascii_case_variant(u, "european"@) {
        lemma_padded_case_variant_reads_as(p, u, q, "european"@);
        assert("european"@[0] != "american"@[0]);
        assert(exercise_named("european"@) == Some(Exercise::European));
    }
    if ascii_case_variant(u, "euro"@) {
        lemma_padded_case_variant_reads_as(p, u, q, "euro"@);
        assert("euro"@[0] != "amer"@[0]);
        assert(exercise_named("euro"@) == Some(Exercise::European));
    }
    if ascii_case_variant(u, "eu"@) {
        lemma_padded_case_variant_reads_as(p, u, q, "eu"@);
        assert("eu"@[0] != "us"@[0]);
        assert(exercise_named("eu"@) == Some(Exercise::European));
    }
    if ascii_case_variant(u, "american"@) {
        lemma_padded_case_variant_reads_as(p, u, q, "american"@);
        assert("american"@[0] != "european"@[0]);
        assert(exercise_named("american"@) == Some(Exercise::American));
    }
    if ascii_case_variant(u, "amer"@) {
        lemma_padded_case_variant_reads_as(p, u, q, "amer"@);
        assert("amer"@[0] != "euro"@[0]);
        assert(exercise_named("amer"@) == Some(Exercise::American));
    }
    if ascii_case_variant(u, "us"@) {
        lemma_padded_case_variant_reads_as(p, u, q, "us"@);
        assert("us"@[0] != "eu"@[0]);
        assert(exercise_named("us"@) == Some(Exercise::American));
    }
}

impl Exercise {
    /// Parse from a string, accepting common spellings: surrounding
    /// whitespace is ignored and ASCII letters may be in any case.
    pub fn parse(s: &str) -> (res: Result<Self, PyoptxError>)
        ensures
            exercise_parse_result(s@, res),
    {
        let name = to_ascii_lowercase(trim_whitespace(s));
        let name = name.as_str();
        if same_text(name, "european") || same_text(name, "euro") || same_text(name, "eu") {
            Ok(Exercise::European)
        } else if same_text(name, "american") || same_text(name, "amer") || same_text(name, "us") {
            Ok(Exercise::American)
        } else {
            let mut msg = String::from_str("exercise must be 'european' or 'american', got '");
            msg.append(name);
            msg.append("'");
            Err(PyoptxError::InvalidInput(msg))
        }
    }
}

} // verus!
