//! Strength reporting for password guess estimates: a bounded score, crack-time
//! projections for four attack scenarios, and feedback taken from the estimator.

pub mod crack_times;
pub mod entropy;
pub mod feedback;
pub mod score;

pub use crack_times::{project, project_seconds, CrackTimesDisplay, CrackTimesSeconds, Seconds};
pub use entropy::{build_entropy, context_tokens, estimate_entropy, Entropy};
pub use feedback::{assemble_feedback, match_suggestion, match_warning, Feedback, Suggestion, Warning};
pub use score::{classify, match_score, Score, ScoreError};
