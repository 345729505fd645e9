use vstd::prelude::*;
use zxcvbn::Score as RawScore;

verus! {

/// zxcvbn's score, declared so that verified code can tell its variants apart.
#[verifier::external_type_specification]
pub struct ExRawScore(RawScore);

/// Strength score: an upper bound, by order of magnitude, on the guesses needed.
#[derive(Clone, Copy, Debug, PartialEq, Eq, Structural)]
pub enum Score {
    /// Can be cracked with 10^3 guesses or less.
    ZERO,
    /// Can be cracked with 10^6 guesses or less.
    ONE,
    /// Can be cracked with 10^8 guesses or less.
    TWO,
    /// Can be cracked with 10^10 guesses or less.
    THREE,
    /// Requires more than 10^10 guesses to crack.
    FOUR,
}

/// The estimator reported a score outside the five known ones.
#[derive(Clone, Copy, Debug, PartialEq, Eq, Structural)]
pub enum ScoreError {
    OutOfRange,
}

impl Score {
    /// The ordinal of the score, 0 to 4.
    pub open spec fn rank(self) -> nat {
        match self {
            Score::ZERO => 0,
            Score::ONE => 1,
            Score::TWO => 2,
            Score::THREE => 3,
            Score::FOUR => 4,
        }
    }

    /// The ordinal of the score, 0 to 4.
    pub fn value(&self) -> (r: u8)
        ensures
            r as nat == self.rank(),
    {
        match self {
            Score::ZERO => 0,
            Score::ONE => 1,
            Score::TWO => 2,
            Score::THREE => 3,
            Score::FOUR => 4,
        }
    }
}

pub const THOUSAND: u64 = 1_000;

pub const MILLION: u64 = 1_000_000;

pub const HUNDRED_MILLION: u64 = 100_000_000;

pub const TEN_BILLION: u64 = 10_000_000_000;

/// The score for a guess count: the smallest band whose bound is at least
/// `guesses` (no guesses at all count as one).
pub open spec fn score_of(guesses: nat) -> Score {
    if guesses <= THOUSAND {
        Score::ZERO
    } else if guesses <= MILLION {
        Score::ONE
    } else if guesses <= HUNDRED_MILLION {
        Score::TWO
    } else if guesses <= TEN_BILLION {
        Score::THREE
    } else {
        Score::FOUR
    }
}

/// Classifies a guess count into one of the five scores.
pub fn classify(guesses: u64) -> (r: Score)
    ensures
        r == score_of(guesses as nat),
{
    if guesses <= THOUSAND {
        Score::ZERO
    } else if guesses <= MILLION {
        Score::ONE
    } else if guesses <= HUNDRED_MILLION {
        Score::TWO
    } else if guesses <= TEN_BILLION {
        Score::THREE
    } else {
        Score::FOUR
    }
}

/// A larger guess count never gets a lower score, and every score is one of
/// the five ordinals 0 to 4.
pub proof fn lemma_score_monotonic(a: nat, b: nat)
    requires
        1 <= a <= b,
    ensures
        score_of(a).rank() <= score_of(b).rank(),
        score_of(a).rank() <= 4,
        score_of(b).rank() <= 4,
{
}

/// The score that each of zxcvbn's five scores stands for; `None` for any other.
pub open spec fn score_from_raw(raw: RawScore) -> Option<Score> {
    match raw {
        RawScore::Zero => Some(Score::ZERO),
        RawScore::One => Some(Score::ONE),
        RawScore::Two => Some(Score::TWO),
        RawScore::Three => Some(Score::THREE),
        RawScore::Four => Some(Score::FOUR),
        _ => None,
    }
}

/// Maps the estimator's score to a `Score`, failing on one it does not know.
pub fn match_score(raw: RawScore) -> (r: Result<Score, ScoreError>)
    ensures
        match score_from_raw(raw) {
            Some(s) => r == Ok::<Score, ScoreError>(s),
            None => r == Err::<Score, ScoreError>(ScoreError::OutOfRange),
        },
{
    match raw {
        RawScore::Zero => Ok(Score::ZERO),
        RawScore::One => Ok(Score::ONE),
        RawScore::Two => Ok(Score::TWO),
        RawScore::Three => Ok(Score::THREE),
        RawScore::Four => Ok(Score::FOUR),
        _ => Err(ScoreError::OutOfRange),
    }
}

} // verus!
