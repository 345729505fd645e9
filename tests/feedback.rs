use pwdlib_zxcvbn::{assemble_feedback, match_suggestion, match_warning, Suggestion, Warning};
use zxcvbn::feedback::Suggestion as RawSuggestion;
use zxcvbn::feedback::Warning as RawWarning;

#[test]
fn no_warning_and_no_suggestions_gives_no_feedback() {
    assert!(assemble_feedback(None, &[]).is_none());
}

#[test]
fn one_warning_and_two_suggestions_keep_their_order() {
    let f = assemble_feedback(
        Some(RawWarning::DatesAreOftenEasyToGuess),
        &[RawSuggestion::AvoidSequences, RawSuggestion::AddAnotherWordOrTwo],
    )
    .unwrap();
    assert_eq!(f.warning, Some(Warning::DatesAreOftenEasyToGuess));
    assert_eq!(f.suggestions, vec![Suggestion::AvoidSequences, Suggestion::AddAnotherWordOrTwo]);
}

#[test]
fn warning_alone_gives_feedback_without_suggestions() {
    let f = assemble_feedback(Some(RawWarning::ThisIsATop10Password), &[]).unwrap();
    assert_eq!(f.warning, Some(Warning::ThisIsATop10Password));
    assert!(f.suggestions.is_empty());
}

#[test]
fn repeated_suggestions_are_kept() {
    let f = assemble_feedback(
        None,
        &[RawSuggestion::AvoidRecentYears, RawSuggestion::AvoidSequences, RawSuggestion::AvoidRecentYears],
    )
    .unwrap();
    assert_eq!(f.warning, None);
    assert_eq!(
        f.suggestions,
        vec![Suggestion::AvoidRecentYears, Suggestion::AvoidSequences, Suggestion::AvoidRecentYears]
    );
}

#[test]
fn warnings_read_as_the_estimator_writes_them() {
    let all = [
        RawWarning::StraightRowsOfKeysAreEasyToGuess,
        RawWarning::ShortKeyboardPatternsAreEasyToGuess,
        RawWarning::RepeatsLikeAaaAreEasyToGuess,
        RawWarning::RepeatsLikeAbcAbcAreOnlySlightlyHarderToGuess,
        RawWarning::ThisIsATop10Password,
        RawWarning::ThisIsATop100Password,
        RawWarning::ThisIsACommonPassword,
        RawWarning::ThisIsSimilarToACommonlyUsedPassword,
        RawWarning::SequencesLikeAbcAreEasyToGuess,
        RawWarning::RecentYearsAreEasyToGuess,
        RawWarning::AWordByItselfIsEasyToGuess,
        RawWarning::DatesAreOftenEasyToGuess,
        RawWarning::NamesAndSurnamesByThemselvesAreEasyToGuess,
        RawWarning::CommonNamesAndSurnamesAreEasyToGuess,
    ];
    for raw in all {
        assert_eq!(match_warning(raw).to_string(), raw.to_string());
    }
}

#[test]
fn suggestions_read_as_the_estimator_writes_them() {
    let all = [
        RawSuggestion::UseAFewWordsAvoidCommonPhrases,
        RawSuggestion::NoNeedForSymbolsDigitsOrUppercaseLetters,
        RawSuggestion::AddAnotherWordOrTwo,
        RawSuggestion::CapitalizationDoesntHelpVeryMuch,
        RawSuggestion::AllUppercaseIsAlmostAsEasyToGuessAsAllLowercase,
        RawSuggestion::ReversedWordsArentMuchHarderToGuess,
        RawSuggestion::PredictableSubstitutionsDontHelpVeryMuch,
        RawSuggestion::UseALongerKeyboardPatternWithMoreTurns,
        RawSuggestion::AvoidRepeatedWordsAndCharacters,
        RawSuggestion::AvoidSequences,
        RawSuggestion::AvoidRecentYears,
        RawSuggestion::AvoidYearsThatAreAssociatedWithYou,
        RawSuggestion::AvoidDatesAndYearsThatAreAssociatedWithYou,
    ];
    for raw in all {
        assert_eq!(match_suggestion(raw).to_string(), raw.to_string());
    }
}

#[test]
fn fixed_texts() {
    assert_eq!(
        Warning::RepeatsLikeAbcAbcAreOnlySlightlyHarderToGuess.to_string(),
        "Repeats like \"abcabcabc\" are only slightly harder to guess than \"abc\"."
    );
    assert_eq!(Warning::ThisIsACommonPassword.to_string(), "This is a very common password.");
    assert_eq!(
        Suggestion::PredictableSubstitutionsDontHelpVeryMuch.to_string(),
        "Predictable substitutions like '@' instead of 'a' don't help very much."
    );
    assert_eq!(Suggestion::AvoidSequences.to_string(), "Avoid sequences.");
}
