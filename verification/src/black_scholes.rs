//! The option kind (call or put) and how it is read from text.

use vstd::prelude::*;

use crate::error::PyoptxError;
use crate::text::{
    all_white_space, ascii_case_variant, ascii_lowercase, lemma_normalize_ignores_padding_and_case,
    lemma_padded_case_variant_reads_as, normalize, padding, same_text, to_ascii_lowercase,
    trim_whitespace,
};

verus! {

/// Call or put.
#[derive(Debug, Clone, Copy, PartialEq, Eq)]
pub enum OptionType {
    Call,
    Put,
}

/// The option kind that a normalised name stands for, if any:
/// `call`/`c` for a call, `put`/`p` for a put.
pub open spec fn option_type_named(name: Seq<char>) -> Option<OptionType> {
    if name == "call"@ || name == "c"@ {
        Some(OptionType::Call)
    } else if name == "put"@ || name == "p"@ {
        Some(OptionType::Put)
    } else {
        None
    }
}

/// The detail message of the error for an unknown option kind, given the
/// normalised text that was read.
pub open spec fn option_type_error_text(name: Seq<char>) -> Seq<char> {
    "option_type must be 'call' or 'put', got '"@ + name + "'"@
}

/// What `OptionType::parse` gives for the text `s`.
pub open spec fn option_type_parse_result(s: Seq<char>, res: Result<OptionType, PyoptxError>) -> bool {
    match option_type_named(normalize(s)) {
        Some(t) => res == Ok::<OptionType, PyoptxError>(t),
        None => res matches Err(PyoptxError::InvalidInput(msg)) && msg@ == option_type_error_text(
            normalize(s),
        ),
    }
}

/// Reading an option kind ignores whitespace around the text and the case of its
/// ASCII letters: `OptionType::parse` gives for `p + u + q`, with `p` and `q`
/// whitespace and `u` equal to `s` up to ASCII case, exactly what it gives
/// for `s`.
pub proof fn lemma_option_type_parse_ignores_padding_and_case(
    p: Seq<char>,
    u: Seq<char>,
    q: Seq<char>,
    s: Seq<char>,
    res: Result<OptionType, PyoptxError>,
)
    requires
        all_white_space(p),
        all_white_space(q),
        ascii_lowercase(u) == ascii_lowercase(s),
    ensures
        option_type_parse_result(p + u + q, res) <==> option_type_parse_result(s, res),
{
    lemma_normalize_ignores_padding_and_case(p, u, q, s);
}

/// Every accepted spelling of an option kind is read as that kind, whatever the
/// case of its ASCII letters and whatever Unicode whitespace surrounds it
/// (for instance a trailing carriage return and line feed).
pub proof fn lemma_option_type_parse_accepts_spellings(
    p: Seq<char>,
    u: Seq<char>,
    q: Seq<char>,
    res: Result<OptionType, PyoptxError>,
)
    requires
        padding(p),
        padding(q),
        option_type_parse_result(p + u + q, res),
    ensures
        (ascii_case_variant(u, "call"@)
            || ascii_case_variant(u, "c"@))
            ==> res == Ok::<OptionType, PyoptxError>(OptionType::Call),
        (ascii_case_variant(u, "put"@)
            || ascii_case_variant(u, "p"@))
            ==> res == Ok::<OptionType, PyoptxError>(OptionType::Put),
{
    reveal_strlit("call");
    reveal_strlit("c");
    reveal_strlit("put");
    reveal_strlit("p");
    if ascii_case_variant(u, "call"@) {
        lemma_padded_case_variant_reads_as(p, u, q, "call"@);
        assert(option_type_named("call"@) == Some(OptionType::Call));
    }
    if ascii_case_variant(u, "c"@) {
        lemma_padded_case_variant_reads_as(p, u, q, "c"@);
        assert("c"@[0] != "p"@[0]);
        assert(option_type_named("c"@) == Some(OptionType::Call));
    }
    if ascii_case_variant(u, "put"@) {
        lemma_padded_case_variant_reads_as(p, u, q, "put"@);
        assert(option_type_named("put"@) == Some(OptionType::Put));
    }
    if ascii_case_variant(u, "p"@) {
        lemma_padded_case_variant_reads_as(p, u, q, "p"@);
        assert("p"@[0] != "c"@[0]);
        assert(option_type_named("p"@) == Some(OptionType::Put));
    }
}

impl OptionType {
    /// Parse from a string, accepting common spellings: surrounding
    /// whitespace is ignored and ASCII letters may be in any case.
    pub fn parse(s: &str) -> (res: Result<Self, PyoptxError>)
        ensures
            option_type_parse_result(s@, res),
    {
        let name = to_ascii_lowercase(trim_whitespace(s));
        let name = name.as_str();
        if same_text(name, "call") || same_text(name, "c") {
            Ok(OptionType::Call)
        } else if same_text(name, "put") || same_text(name, "p") {
            Ok(OptionType::Put)
        } else {
            let mut msg = String::from_str("option_type must be 'call' or 'put', got '");
            msg.append(name);
            msg.append("'");
            Err(PyoptxError::InvalidInput(msg))
        }
    }
}

} // verus!
