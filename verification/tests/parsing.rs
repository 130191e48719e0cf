use pyoptx_core::binomial::Exercise;
use pyoptx_core::black_scholes::OptionType;
use pyoptx_core::error::PyoptxError;

#[test]
fn option_type_accepts_canonical_names() {
    assert_eq!(OptionType::parse("call"), Ok(OptionType::Call));
    assert_eq!(OptionType::parse("put"), Ok(OptionType::Put));
}

#[test]
fn option_type_accepts_short_names() {
    assert_eq!(OptionType::parse("c"), Ok(OptionType::Call));
    assert_eq!(OptionType::parse("p"), Ok(OptionType::Put));
}

#[test]
fn option_type_ignores_case_and_padding() {
    assert_eq!(OptionType::parse("  CALL\t"), Ok(OptionType::Call));
    assert_eq!(OptionType::parse("\n Put "), Ok(OptionType::Put));
    assert_eq!(OptionType::parse("\u{3000}cAlL\u{a0}"), Ok(OptionType::Call));
    assert_eq!(OptionType::parse(" P"), Ok(OptionType::Put));
}

#[test]
fn option_type_rejects_unknown_name() {
    assert_eq!(
        OptionType::parse("  Straddle "),
        Err(PyoptxError::InvalidInput(
            "option_type must be 'call' or 'put', got 'straddle'".to_string()
        ))
    );
}

#[test]
fn option_type_rejects_empty_and_inner_space() {
    assert_eq!(
        OptionType::parse("   "),
        Err(PyoptxError::InvalidInput(
            "option_type must be 'call' or 'put', got ''".to_string()
        ))
    );
    assert_eq!(
        OptionType::parse("ca ll"),
        Err(PyoptxError::InvalidInput(
            "option_type must be 'call' or 'put', got 'ca ll'".to_string()
        ))
    );
}

#[test]
fn option_type_lowercases_only_ascii_in_message() {
    assert_eq!(
        OptionType::parse("ÇALL"),
        Err(PyoptxError::InvalidInput(
            "option_type must be 'call' or 'put', got 'Çall'".to_string()
        ))
    );
}

#[test]
fn exercise_accepts_all_spellings() {
    for s in ["european", "euro", "eu", "EUROPEAN", " Euro ", "EU\n"] {
        assert_eq!(Exercise::parse(s), Ok(Exercise::European), "{s:?}");
    }
    for s in ["american", "amer", "us", "American", "\tAMER", " uS "] {
        assert_eq!(Exercise::parse(s), Ok(Exercise::American), "{s:?}");
    }
}

#[test]
fn exercise_rejects_unknown_name() {
    assert_eq!(
        Exercise::parse(" Bermudan"),
        Err(PyoptxError::InvalidInput(
            "exercise must be 'european' or 'american', got 'bermudan'".to_string()
        ))
    );
    assert_eq!(
        Exercise::parse("call"),
        Err(PyoptxError::InvalidInput(
            "exercise must be 'european' or 'american', got 'call'".to_string()
        ))
    );
}

#[test]
fn error_messages_name_their_kind() {
    let e = PyoptxError::InvalidInput("S and K must be > 0".to_string());
    assert_eq!(e.message(), "invalid input: S and K must be > 0");
    let e = PyoptxError::Convergence("implied vol did not converge".to_string());
    assert_eq!(e.message(), "convergence error: implied vol did not converge");
}

#[test]
fn parse_error_message_round_trip() {
    let e = OptionType::parse("x").unwrap_err();
    assert_eq!(
        e.message(),
        "invalid input: option_type must be 'call' or 'put', got 'x'"
    );
}
