use crate::crack_times::{crack_times_of, displays, project, CrackTimesDisplay, CrackTimesSeconds};
use crate::feedback::{assemble_feedback, feedback_for, Feedback};
use crate::score::{classify, match_score, score_from_raw, score_of, Score, ScoreError};
use vstd::prelude::*;
use zxcvbn::feedback::Feedback as RawFeedback;
use zxcvbn::feedback::Suggestion as RawSuggestion;
use zxcvbn::feedback::Warning as RawWarning;
use zxcvbn::Entropy as Estimate;
use zxcvbn::Score as RawScore;

verus! {

/// zxcvbn's estimate for one password, carried through opaquely.
#[verifier::external_type_specification]
#[verifier::external_body]
pub struct ExEstimate(Estimate);

/// zxcvbn's feedback for one password, carried through opaquely.
#[verifier::external_type_specification]
#[verifier::external_body]
pub struct ExRawFeedback(RawFeedback);

/// zxcvbn::zxcvbn, the guess estimator: it may give any estimate.
pub assume_specification[ zxcvbn::zxcvbn ](password: &str, user_inputs: &[&str]) -> Estimate;

/// zxcvbn::Entropy::guesses, the estimated guess count.
pub assume_specification[ Estimate::guesses ](e: &Estimate) -> u64;

/// zxcvbn::Entropy::score, zxcvbn's own score.
pub assume_specification[ Estimate::score ](e: &Estimate) -> RawScore;

/// zxcvbn::Entropy::feedback, zxcvbn's warning and suggestions, if any.
pub assume_specification[ Estimate::feedback ](e: &Estimate) -> Option<&RawFeedback>;

/// zxcvbn::feedback::Feedback::warning.
pub assume_specification[ RawFeedback::warning ](f: &RawFeedback) -> Option<RawWarning>;

/// zxcvbn::feedback::Feedback::suggestions, in zxcvbn's order.
pub assume_specification[ RawFeedback::suggestions ](f: &RawFeedback) -> &[RawSuggestion];

/// Relies on zxcvbn::Entropy::calculation_time: how long the estimate took,
/// in whole milliseconds. It depends on the machine, so nothing is promised.
#[verifier::external_body]
fn calculation_millis(e: &Estimate) -> u128 {
    e.calculation_time().as_millis()
}

/// The strength report for one password.
#[derive(Clone, Debug)]
pub struct Entropy {
    /// Estimated guesses needed to crack the password.
    pub guesses: u64,
    /// The time each attack scenario needs for those guesses.
    pub crack_times_seconds: CrackTimesSeconds,
    /// The same times, as text.
    pub crack_times_display: CrackTimesDisplay,
    /// Strength score from 0 to 4; under 3 is too weak.
    pub score: Score,
    /// Advice for a better password, when the estimator has any.
    pub feedback: Option<Feedback>,
    /// How long the estimate took, in milliseconds.
    pub calc_time: u128,
}

/// Whether `e` is the report for a guess count: its score and crack times follow
/// from `guesses`, and each display text from its time.
pub open spec fn reports_guesses(e: Entropy, guesses: nat) -> bool {
    &&& e.guesses as nat == guesses
    &&& e.score == score_of(guesses)
    &&& e.crack_times_seconds == crack_times_of(guesses)
    &&& displays(e.crack_times_seconds, e.crack_times_display)
}

/// Builds the report from the estimator's raw output. Fails exactly when the
/// estimator's own score is none of the five known ones.
pub fn build_entropy(
    guesses: u64,
    raw_score: RawScore,
    raw_warning: Option<RawWarning>,
    raw_suggestions: &[RawSuggestion],
    calc_time: u128,
) -> (r: Result<Entropy, ScoreError>)
    ensures
        r is Err <==> score_from_raw(raw_score) is None,
        r matches Err(err) ==> err == ScoreError::OutOfRange,
        r matches Ok(e) ==> reports_guesses(e, guesses as nat)
            && feedback_for(e.feedback, raw_warning, raw_suggestions@)
            && e.calc_time == calc_time,
{
    match match_score(raw_score) {
        Err(err) => Err(err),
        Ok(_) => {
            let (crack_times_seconds, crack_times_display) = project(guesses);
            Ok(Entropy {
                guesses,
                crack_times_seconds,
                crack_times_display,
                score: classify(guesses),
                feedback: assemble_feedback(raw_warning, raw_suggestions),
                calc_time,
            })
        },
    }
}

/// The context tokens handed to the estimator: none when no user inputs are
/// given, else each input's text, in the order given.
pub fn context_tokens(user_inputs: &Option<Vec<String>>) -> (r: Vec<&str>)
    ensures
        user_inputs is None ==> r@.len() == 0,
        user_inputs matches Some(v) ==> r@.len() == v@.len()
            && forall|j: int| 0 <= j < v@.len() ==> #[trigger] r@[j]@ == v@[j]@,
{
    let mut tokens: Vec<&str> = Vec::new();
    match user_inputs {
        Some(v) => {
            let mut i: usize = 0;
            while i < v.len()
                invariant
                    i <= v@.len(),
                    tokens@.len() == i,
                    forall|j: int| 0 <= j < i ==> #[trigger] tokens@[j]@ == v@[j]@,
                decreases v@.len() - i,
            {
                tokens.push(v[i].as_str());
                i = i + 1;
            }
        },
        None => {},
    }
    tokens
}

/// Estimates the strength of `password`, with `user_inputs` (a user name, an
/// e-mail address) treated as known to the user: the estimator is called once,
/// on `password` and the tokens of `context_tokens`. Whatever it gives,
/// the score and crack times follow from its guess count, and feedback is only
/// there when it holds advice.
pub fn estimate_entropy(password: &str, user_inputs: Option<Vec<String>>) -> (r: Result<Entropy, ScoreError>)
    ensures
        r matches Ok(e) ==> reports_guesses(e, e.guesses as nat)
            && (e.feedback matches Some(f) ==> f.warning is Some || f.suggestions@.len() > 0),
{
    let tokens = context_tokens(&user_inputs);
    let estimate = zxcvbn::zxcvbn(password, tokens.as_slice());
    let calc_time = calculation_millis(&estimate);
    let guesses = estimate.guesses();
    let raw_score = estimate.score();
    match estimate.feedback() {
        Some(f) => build_entropy(guesses, raw_score, f.warning(), f.suggestions(), calc_time),
        None => build_entropy(guesses, raw_score, None, &[], calc_time),
    }
}

} // verus!
