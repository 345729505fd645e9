use vstd::prelude::*;
use zxcvbn::feedback::Suggestion as RawSuggestion;
use zxcvbn::feedback::Warning as RawWarning;

verus! {

/// zxcvbn's warning, declared so that verified code can tell its variants apart.
#[verifier::external_type_specification]
pub struct ExRawWarning(RawWarning);

/// zxcvbn's suggestion, declared so that verified code can tell its variants apart.
#[verifier::external_type_specification]
pub struct ExRawSuggestion(RawSuggestion);

/// A cautionary statement about a weakness found in the password.
#[derive(Clone, Copy, Debug, PartialEq, Eq, Structural)]
pub enum Warning {
    StraightRowsOfKeysAreEasyToGuess,
    ShortKeyboardPatternsAreEasyToGuess,
    RepeatsLikeAaaAreEasyToGuess,
    RepeatsLikeAbcAbcAreOnlySlightlyHarderToGuess,
    ThisIsATop10Password,
    ThisIsATop100Password,
    ThisIsACommonPassword,
    ThisIsSimilarToACommonlyUsedPassword,
    SequencesLikeAbcAreEasyToGuess,
    RecentYearsAreEasyToGuess,
    AWordByItselfIsEasyToGuess,
    DatesAreOftenEasyToGuess,
    NamesAndSurnamesByThemselvesAreEasyToGuess,
    CommonNamesAndSurnamesAreEasyToGuess,
}

/// An action that would make the password harder to guess.
#[derive(Clone, Copy, Debug, PartialEq, Eq, Structural)]
pub enum Suggestion {
    UseAFewWordsAvoidCommonPhrases,
    NoNeedForSymbolsDigitsOrUppercaseLetters,
    AddAnotherWordOrTwo,
    CapitalizationDoesntHelpVeryMuch,
    AllUppercaseIsAlmostAsEasyToGuessAsAllLowercase,
    ReversedWordsArentMuchHarderToGuess,
    PredictableSubstitutionsDontHelpVeryMuch,
    UseALongerKeyboardPatternWithMoreTurns,
    AvoidRepeatedWordsAndCharacters,
    AvoidSequences,
    AvoidRecentYears,
    AvoidYearsThatAreAssociatedWithYou,
    AvoidDatesAndYearsThatAreAssociatedWithYou,
}

impl Warning {
    /// The fixed display text of the warning.
    pub open spec fn text(self) -> Seq<char> {
        match self {
            Warning::StraightRowsOfKeysAreEasyToGuess => "Straight rows of keys are easy to guess."@,
            Warning::ShortKeyboardPatternsAreEasyToGuess => "Short keyboard patterns are easy to guess."@,
            Warning::RepeatsLikeAaaAreEasyToGuess => "Repeats like \"aaa\" are easy to guess."@,
            Warning::RepeatsLikeAbcAbcAreOnlySlightlyHarderToGuess =>
                "Repeats like \"abcabcabc\" are only slightly harder to guess than \"abc\"."@,
            Warning::ThisIsATop10Password => "This is a top-10 common password."@,
            Warning::ThisIsATop100Password => "This is a top-100 common password."@,
            Warning::ThisIsACommonPassword => "This is a very common password."@,
            Warning::ThisIsSimilarToACommonlyUsedPassword =>
                "This is similar to a commonly used password."@,
            Warning::SequencesLikeAbcAreEasyToGuess => "Sequences like abc or 6543 are easy to guess."@,
            Warning::RecentYearsAreEasyToGuess => "Recent years are easy to guess."@,
            Warning::AWordByItselfIsEasyToGuess => "A word by itself is easy to guess."@,
            Warning::DatesAreOftenEasyToGuess => "Dates are often easy to guess."@,
            Warning::NamesAndSurnamesByThemselvesAreEasyToGuess =>
                "Names and surnames by themselves are easy to guess."@,
            Warning::CommonNamesAndSurnamesAreEasyToGuess =>
                "Common names and surnames are easy to guess."@,
        }
    }

    /// The fixed display text of the warning.
    pub fn to_string(&self) -> (r: String)
        ensures
            r@ == self.text(),
    {
        let s: &str = match self {
            Warning::StraightRowsOfKeysAreEasyToGuess => "Straight rows of keys are easy to guess.",
            Warning::ShortKeyboardPatternsAreEasyToGuess => "Short keyboard patterns are easy to guess.",
            Warning::RepeatsLikeAaaAreEasyToGuess => "Repeats like \"aaa\" are easy to guess.",
            Warning::RepeatsLikeAbcAbcAreOnlySlightlyHarderToGuess =>
                "Repeats like \"abcabcabc\" are only slightly harder to guess than \"abc\".",
            Warning::ThisIsATop10Password => "This is a top-10 common password.",
            Warning::ThisIsATop100Password => "This is a top-100 common password.",
            Warning::ThisIsACommonPassword => "This is a very common password.",
            Warning::ThisIsSimilarToACommonlyUsedPassword =>
                "This is similar to a commonly used password.",
            Warning::SequencesLikeAbcAreEasyToGuess => "Sequences like abc or 6543 are easy to guess.",
            Warning::RecentYearsAreEasyToGuess => "Recent years are easy to guess.",
            Warning::AWordByItselfIsEasyToGuess => "A word by itself is easy to guess.",
            Warning::DatesAreOftenEasyToGuess => "Dates are often easy to guess.",
            Warning::NamesAndSurnamesByThemselvesAreEasyToGuess =>
                "Names and surnames by themselves are easy to guess.",
            Warning::CommonNamesAndSurnamesAreEasyToGuess =>
                "Common names and surnames are easy to guess.",
        };
        s.to_string()
    }
}

impl Suggestion {
    /// The fixed display text of the suggestion.
    pub open spec fn text(self) -> Seq<char> {
        match self {
            Suggestion::UseAFewWordsAvoidCommonPhrases => "Use a few words, avoid common phrases."@,
            Suggestion::NoNeedForSymbolsDigitsOrUppercaseLetters =>
                "No need for symbols, digits, or uppercase letters."@,
            Suggestion::AddAnotherWordOrTwo => "Add another word or two. Uncommon words are better."@,
            Suggestion::CapitalizationDoesntHelpVeryMuch => "Capitalization doesn't help very much."@,
            Suggestion::AllUppercaseIsAlmostAsEasyToGuessAsAllLowercase =>
                "All-uppercase is almost as easy to guess as all-lowercase."@,
            Suggestion::ReversedWordsArentMuchHarderToGuess =>
                "Reversed words aren't much harder to guess."@,
            Suggestion::PredictableSubstitutionsDontHelpVeryMuch =>
                "Predictable substitutions like '@' instead of 'a' don't help very much."@,
            Suggestion::UseALongerKeyboardPatternWithMoreTurns =>
                "Use a longer keyboard pattern with more turns."@,
            Suggestion::AvoidRepeatedWordsAndCharacters => "Avoid repeated words and characters."@,
            Suggestion::AvoidSequences => "Avoid sequences."@,
            Suggestion::AvoidRecentYears => "Avoid recent years."@,
            Suggestion::AvoidYearsThatAreAssociatedWithYou =>
                "Avoid years that are associated with you."@,
            Suggestion::AvoidDatesAndYearsThatAreAssociatedWithYou =>
                "Avoid dates and years that are associated with you."@,
        }
    }

    /// The fixed display text of the suggestion.
    pub fn to_string(&self) -> (r: String)
        ensures
            r@ == self.text(),
    {
        let s: &str = match self {
            Suggestion::UseAFewWordsAvoidCommonPhrases => "Use a few words, avoid common phrases.",
            Suggestion::NoNeedForSymbolsDigitsOrUppercaseLetters =>
                "No need for symbols, digits, or uppercase letters.",
            Suggestion::AddAnotherWordOrTwo => "Add another word or two. Uncommon words are better.",
            Suggestion::CapitalizationDoesntHelpVeryMuch => "Capitalization doesn't help very much.",
            Suggestion::AllUppercaseIsAlmostAsEasyToGuessAsAllLowercase =>
                "All-uppercase is almost as easy to guess as all-lowercase.",
            Suggestion::ReversedWordsArentMuchHarderToGuess =>
                "Reversed words aren't much harder to guess.",
            Suggestion::PredictableSubstitutionsDontHelpVeryMuch =>
                "Predictable substitutions like '@' instead of 'a' don't help very much.",
            Suggestion::UseALongerKeyboardPatternWithMoreTurns =>
                "Use a longer keyboard pattern with more turns.",
            Suggestion::AvoidRepeatedWordsAndCharacters => "Avoid repeated words and characters.",
            Suggestion::AvoidSequences => "Avoid sequences.",
            Suggestion::AvoidRecentYears => "Avoid recent years.",
            Suggestion::AvoidYearsThatAreAssociatedWithYou =>
                "Avoid years that are associated with you.",
            Suggestion::AvoidDatesAndYearsThatAreAssociatedWithYou =>
                "Avoid dates and years that are associated with you.",
        };
        s.to_string()
    }
}

/// The warning that each of zxcvbn's warnings stands for.
pub open spec fn warning_from_raw(raw: RawWarning) -> Warning {
    match raw {
        RawWarning::StraightRowsOfKeysAreEasyToGuess => Warning::StraightRowsOfKeysAreEasyToGuess,
        RawWarning::ShortKeyboardPatternsAreEasyToGuess => Warning::ShortKeyboardPatternsAreEasyToGuess,
        RawWarning::RepeatsLikeAaaAreEasyToGuess => Warning::RepeatsLikeAaaAreEasyToGuess,
        RawWarning::RepeatsLikeAbcAbcAreOnlySlightlyHarderToGuess =>
            Warning::RepeatsLikeAbcAbcAreOnlySlightlyHarderToGuess,
        RawWarning::ThisIsATop10Password => Warning::ThisIsATop10Password,
        RawWarning::ThisIsATop100Password => Warning::ThisIsATop100Password,
        RawWarning::ThisIsACommonPassword => Warning::ThisIsACommonPassword,
        RawWarning::ThisIsSimilarToACommonlyUsedPassword => Warning::ThisIsSimilarToACommonlyUsedPassword,
        RawWarning::SequencesLikeAbcAreEasyToGuess => Warning::SequencesLikeAbcAreEasyToGuess,
        RawWarning::RecentYearsAreEasyToGuess => Warning::RecentYearsAreEasyToGuess,
        RawWarning::AWordByItselfIsEasyToGuess => Warning::AWordByItselfIsEasyToGuess,
        RawWarning::DatesAreOftenEasyToGuess => Warning::DatesAreOftenEasyToGuess,
        RawWarning::NamesAndSurnamesByThemselvesAreEasyToGuess =>
            Warning::NamesAndSurnamesByThemselvesAreEasyToGuess,
        RawWarning::CommonNamesAndSurnamesAreEasyToGuess => Warning::CommonNamesAndSurnamesAreEasyToGuess,
    }
}

/// Maps one of zxcvbn's warnings to the warning of the same meaning.
pub fn match_warning(raw: RawWarning) -> (r: Warning)
    ensures
        r == warning_from_raw(raw),
{
    match raw {
        RawWarning::StraightRowsOfKeysAreEasyToGuess => Warning::StraightRowsOfKeysAreEasyToGuess,
        RawWarning::ShortKeyboardPatternsAreEasyToGuess => Warning::ShortKeyboardPatternsAreEasyToGuess,
        RawWarning::RepeatsLikeAaaAreEasyToGuess => Warning::RepeatsLikeAaaAreEasyToGuess,
        RawWarning::RepeatsLikeAbcAbcAreOnlySlightlyHarderToGuess =>
            Warning::RepeatsLikeAbcAbcAreOnlySlightlyHarderToGuess,
        RawWarning::ThisIsATop10Password => Warning::ThisIsATop10Password,
        RawWarning::ThisIsATop100Password => Warning::ThisIsATop100Password,
        RawWarning::ThisIsACommonPassword => Warning::ThisIsACommonPassword,
        RawWarning::ThisIsSimilarToACommonlyUsedPassword => Warning::ThisIsSimilarToACommonlyUsedPassword,
        RawWarning::SequencesLikeAbcAreEasyToGuess => Warning::SequencesLikeAbcAreEasyToGuess,
        RawWarning::RecentYearsAreEasyToGuess => Warning::RecentYearsAreEasyToGuess,
        RawWarning::AWordByItselfIsEasyToGuess => Warning::AWordByItselfIsEasyToGuess,
        RawWarning::DatesAreOftenEasyToGuess => Warning::DatesAreOftenEasyToGuess,
        RawWarning::NamesAndSurnamesByThemselvesAreEasyToGuess =>
            Warning::NamesAndSurnamesByThemselvesAreEasyToGuess,
        RawWarning::CommonNamesAndSurnamesAreEasyToGuess => Warning::CommonNamesAndSurnamesAreEasyToGuess,
    }
}

/// The suggestion that each of zxcvbn's suggestions stands for.
pub open spec fn suggestion_from_raw(raw: RawSuggestion) -> Suggestion {
    match raw {
        RawSuggestion::UseAFewWordsAvoidCommonPhrases => Suggestion::UseAFewWordsAvoidCommonPhrases,
        RawSuggestion::NoNeedForSymbolsDigitsOrUppercaseLetters =>
            Suggestion::NoNeedForSymbolsDigitsOrUppercaseLetters,
        RawSuggestion::AddAnotherWordOrTwo => Suggestion::AddAnotherWordOrTwo,
        RawSuggestion::CapitalizationDoesntHelpVeryMuch => Suggestion::CapitalizationDoesntHelpVeryMuch,
        RawSuggestion::AllUppercaseIsAlmostAsEasyToGuessAsAllLowercase =>
            Suggestion::AllUppercaseIsAlmostAsEasyToGuessAsAllLowercase,
        RawSuggestion::ReversedWordsArentMuchHarderToGuess => Suggestion::ReversedWordsArentMuchHarderToGuess,
        RawSuggestion::PredictableSubstitutionsDontHelpVeryMuch =>
            Suggestion::PredictableSubstitutionsDontHelpVeryMuch,
        RawSuggestion::UseALongerKeyboardPatternWithMoreTurns =>
            Suggestion::UseALongerKeyboardPatternWithMoreTurns,
        RawSuggestion::AvoidRepeatedWordsAndCharacters => Suggestion::AvoidRepeatedWordsAndCharacters,
        RawSuggestion::AvoidSequences => Suggestion::AvoidSequences,
        RawSuggestion::AvoidRecentYears => Suggestion::AvoidRecentYears,
        RawSuggestion::AvoidYearsThatAreAssociatedWithYou => Suggestion::AvoidYearsThatAreAssociatedWithYou,
        RawSuggestion::AvoidDatesAndYearsThatAreAssociatedWithYou =>
            Suggestion::AvoidDatesAndYearsThatAreAssociatedWithYou,
    }
}

/// Maps one of zxcvbn's suggestions to the suggestion of the same meaning.
pub fn match_suggestion(raw: RawSuggestion) -> (r: Suggestion)
    ensures
        r == suggestion_from_raw(raw),
{
    match raw {
        RawSuggestion::UseAFewWordsAvoidCommonPhrases => Suggestion::UseAFewWordsAvoidCommonPhrases,
        RawSuggestion::NoNeedForSymbolsDigitsOrUppercaseLetters =>
            Suggestion::NoNeedForSymbolsDigitsOrUppercaseLetters,
        RawSuggestion::AddAnotherWordOrTwo => Suggestion::AddAnotherWordOrTwo,
        RawSuggestion::CapitalizationDoesntHelpVeryMuch => Suggestion::CapitalizationDoesntHelpVeryMuch,
        RawSuggestion::AllUppercaseIsAlmostAsEasyToGuessAsAllLowercase =>
            Suggestion::AllUppercaseIsAlmostAsEasyToGuessAsAllLowercase,
        RawSuggestion::ReversedWordsArentMuchHarderToGuess => Suggestion::ReversedWordsArentMuchHarderToGuess,
        RawSuggestion::PredictableSubstitutionsDontHelpVeryMuch =>
            Suggestion::PredictableSubstitutionsDontHelpVeryMuch,
        RawSuggestion::UseALongerKeyboardPatternWithMoreTurns =>
            Suggestion::UseALongerKeyboardPatternWithMoreTurns,
        RawSuggestion::AvoidRepeatedWordsAndCharacters => Suggestion::AvoidRepeatedWordsAndCharacters,
        RawSuggestion::AvoidSequences => Suggestion::AvoidSequences,
        RawSuggestion::AvoidRecentYears => Suggestion::AvoidRecentYears,
        RawSuggestion::AvoidYearsThatAreAssociatedWithYou => Suggestion::AvoidYearsThatAreAssociatedWithYou,
        RawSuggestion::AvoidDatesAndYearsThatAreAssociatedWithYou =>
            Suggestion::AvoidDatesAndYearsThatAreAssociatedWithYou,
    }
}

/// Advice for choosing a stronger password: at most one warning, and
/// suggestions in the order the estimator gave them.
#[derive(Clone, Debug)]
pub struct Feedback {
    pub warning: Option<Warning>,
    pub suggestions: Vec<Suggestion>,
}

/// The warning, if any, that a raw warning stands for.
pub open spec fn warning_option_from_raw(raw: Option<RawWarning>) -> Option<Warning> {
    match raw {
        Some(w) => Some(warning_from_raw(w)),
        None => None,
    }
}

/// The suggestions that a raw list stands for, one for one and in order.
pub open spec fn suggestions_from_raw(raw: Seq<RawSuggestion>) -> Seq<Suggestion> {
    raw.map_values(|s: RawSuggestion| suggestion_from_raw(s))
}

/// Whether the estimator's output carries any advice at all.
pub open spec fn has_advice(raw_warning: Option<RawWarning>, raw_suggestions: Seq<RawSuggestion>) -> bool {
    raw_warning is Some || raw_suggestions.len() > 0
}

/// Whether `r` is the feedback for the estimator's raw warning and suggestions:
/// none when there is neither, else each value mapped, suggestions in order.
pub open spec fn feedback_for(
    r: Option<Feedback>,
    raw_warning: Option<RawWarning>,
    raw_suggestions: Seq<RawSuggestion>,
) -> bool {
    &&& r is None <==> !has_advice(raw_warning, raw_suggestions)
    &&& r matches Some(f) ==> f.warning == warning_option_from_raw(raw_warning)
        && f.suggestions@ == suggestions_from_raw(raw_suggestions)
}

/// Every suggestion is kept, one for one and in the estimator's order: none is
/// dropped, merged with an equal one, or moved.
pub proof fn lemma_suggestions_keep_order(raw: Seq<RawSuggestion>)
    ensures
        suggestions_from_raw(raw).len() == raw.len(),
        forall|i: int|
            0 <= i < raw.len() ==> #[trigger] suggestions_from_raw(raw)[i] == suggestion_from_raw(raw[i]),
{
}

/// Builds the feedback from the estimator's raw warning and suggestions: none
/// when there is neither, else each value mapped, the suggestions kept in order.
pub fn assemble_feedback(raw_warning: Option<RawWarning>, raw_suggestions: &[RawSuggestion]) -> (r: Option<Feedback>)
    ensures
        feedback_for(r, raw_warning, raw_suggestions@),
{
    if raw_warning.is_none() && raw_suggestions.len() == 0 {
        return None;
    }
    let warning = match raw_warning {
        Some(w) => Some(match_warning(w)),
        None => None,
    };
    let mut suggestions: Vec<Suggestion> = Vec::new();
    let mut i: usize = 0;
    while i < raw_suggestions.len()
        invariant
            i <= raw_suggestions@.len(),
            suggestions@ == suggestions_from_raw(raw_suggestions@.subrange(0, i as int)),
        decreases raw_suggestions@.len() - i,
    {
        suggestions.push(match_suggestion(raw_suggestions[i]));
        proof {
            assert(raw_suggestions@.subrange(0, i + 1) =~= raw_suggestions@.subrange(0, i as int).push(raw_suggestions@[i as int]));
        }
        i = i + 1;
    }
    proof {
        assert(raw_suggestions@.subrange(0, i as int) =~= raw_suggestions@);
    }
    Some(Feedback { warning, suggestions })
}

} // verus!
