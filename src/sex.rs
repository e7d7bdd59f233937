//! The sex that selects a coefficient set, parsed from free text.
use crate::error::RiskError;
use vstd::prelude::*;
use vstd::string::*;

verus! {

#[derive(Clone, Copy, Debug, PartialEq, Eq, Structural)]
pub enum Sex {
    Male,
    Female,
}

/// `c` is the lower-case letter `w` or, for an ASCII letter, its upper case.
pub open spec fn folds_to(c: char, w: char) -> bool {
    c == w || ('A' <= c <= 'Z' && (c as u32) + 32 == (w as u32))
}

/// `s` spells the lower-case word `word` in any mix of letter cases.
pub open spec fn spells_ignoring_case(s: Seq<char>, word: Seq<char>) -> bool {
    s.len() == word.len() && forall|i: int| 0 <= i < s.len() ==> folds_to(#[trigger] s[i], word[i])
}

pub open spec fn male_word() -> Seq<char> {
    seq!['m', 'a', 'l', 'e']
}

pub open spec fn female_word() -> Seq<char> {
    seq!['f', 'e', 'm', 'a', 'l', 'e']
}

/// The sex that the text names, if any.
pub open spec fn sex_named(s: Seq<char>) -> Option<Sex> {
    if spells_ignoring_case(s, male_word()) {
        Some(Sex::Male)
    } else if spells_ignoring_case(s, female_word()) {
        Some(Sex::Female)
    } else {
        None
    }
}

fn spells(s: &str, word: &[char]) -> (r: bool)
    ensures
        r == spells_ignoring_case(s@, word@),
{
    let n = s.unicode_len();
    if n != word.len() {
        return false;
    }
    let mut i: usize = 0;
    while i < n
        invariant
            n == s@.len(),
            n == word@.len(),
            i <= n,
            forall|j: int| 0 <= j < i ==> folds_to(#[trigger] s@[j], word@[j]),
        decreases n - i,
    {
        let c = s.get_char(i);
        let w = word[i];
        let upper_pair = 'A' <= c && c <= 'Z' && (c as u32) + 32 == (w as u32);
        if !(c == w || upper_pair) {
            return false;
        }
        i = i + 1;
    }
    true
}

/// Parses "male" or "female" in any letter case; any other text, an
/// abbreviation included, is refused and reported.
pub fn parse_sex(sex: &str) -> (r: Result<Sex, RiskError>)
    ensures
        sex_named(sex@) matches Some(s) ==> r == Ok::<Sex, RiskError>(s),
        sex_named(sex@) is None ==> (r matches Err(RiskError::InvalidSex { value }) && value@
            == sex@),
{
    let male: [char; 4] = ['m', 'a', 'l', 'e'];
    let female: [char; 6] = ['f', 'e', 'm', 'a', 'l', 'e'];
    proof {
        assert(male@ =~= male_word());
        assert(female@ =~= female_word());
    }
    if spells(sex, male.as_slice()) {
        Ok(Sex::Male)
    } else if spells(sex, female.as_slice()) {
        Ok(Sex::Female)
    } else {
        Err(RiskError::InvalidSex { value: String::from_str(sex) })
    }
}

} // verus!
