use prevent::error::RiskError;
use prevent::sex::{parse_sex, Sex};

#[test]
fn sex_is_case_insensitive() {
    assert_eq!(parse_sex("Male"), Ok(Sex::Male));
    assert_eq!(parse_sex("MALE"), Ok(Sex::Male));
    assert_eq!(parse_sex("male"), Ok(Sex::Male));
    assert_eq!(parse_sex("female"), Ok(Sex::Female));
    assert_eq!(parse_sex("FeMaLe"), Ok(Sex::Female));
}

#[test]
fn abbreviations_and_other_text_are_rejected() {
    for text in ["m", "f", "", "males", " male", "femal", "man", "M\u{0301}ale"] {
        assert_eq!(parse_sex(text), Err(RiskError::InvalidSex { value: text.to_string() }));
    }
}
