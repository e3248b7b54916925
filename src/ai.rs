//! Keyword-driven classification of free-text signals into chart patterns and
//! trends, evaluated as ordered rule lists where the first match wins.
//!
//! Confidences are whole percentages in `0..=100`.
use vstd::prelude::*;
use crate::market::TrendLabel;
use crate::sampling::sample_in_range;
use crate::text::{contains_str, seq_contains};

verus! {

/// A recognised chart pattern.
#[derive(Clone, Copy, Debug, PartialEq, Eq, Structural)]
pub enum PatternKind {
    AscendingTriangle,
    DescendingWedge,
}

/// The outcome of pattern recognition.
#[derive(Clone, Debug)]
pub struct Pattern {
    pub pattern_type: PatternKind,
    /// Confidence in percent.
    pub confidence: u32,
    pub description: String,
}

/// A trend prediction with its confidence.
#[derive(Clone, Copy, Debug, PartialEq, Eq, Structural)]
pub struct NeuralPrediction {
    pub predicted_trend: TrendLabel,
    /// Confidence in percent.
    pub confidence: u32,
}

/// No rule matched the signal text.
#[derive(Clone, Copy, Debug, PartialEq, Eq, Structural)]
pub enum ClassifyError {
    NoPatternMatch,
    NoTrendMatch,
}

/// Recognises chart patterns in signal text.
pub struct PatternRecognition;

/// Predicts trends from signal text.
pub struct NeuralNetwork;

/// Lowest trend confidence that a prediction draws, in percent.
pub const TREND_CONFIDENCE_LOW: u32 = 70;

/// One above the highest trend confidence that a prediction draws, in percent.
pub const TREND_CONFIDENCE_HIGH: u32 = 100;

/// Rule `i` is the first of `keys` whose keyword occurs in `text`.
pub open spec fn is_first_match(text: Seq<char>, keys: Seq<&str>, i: int) -> bool {
    0 <= i < keys.len() && seq_contains(text, keys[i]@) && forall|j: int|
        0 <= j < i ==> !seq_contains(text, #[trigger] keys[j]@)
}

/// No keyword of `keys` occurs in `text`.
pub open spec fn no_match(text: Seq<char>, keys: Seq<&str>) -> bool {
    forall|j: int| 0 <= j < keys.len() ==> !seq_contains(text, #[trigger] keys[j]@)
}

/// The pattern that a text shows, by priority: ascending triangle, then
/// descending wedge.
pub open spec fn pattern_of(text: Seq<char>) -> Option<PatternKind> {
    if seq_contains(text, "ascending triangle"@) {
        Some(PatternKind::AscendingTriangle)
    } else if seq_contains(text, "descending wedge"@) {
        Some(PatternKind::DescendingWedge)
    } else {
        None
    }
}

/// The trend that a text states, by priority: bullish, then bearish.
pub open spec fn trend_of(text: Seq<char>) -> Option<TrendLabel> {
    if seq_contains(text, "bullish trend"@) {
        Some(TrendLabel::Bullish)
    } else if seq_contains(text, "bearish trend"@) {
        Some(TrendLabel::Bearish)
    } else {
        None
    }
}

/// The fixed confidence of each pattern, in percent.
pub open spec fn pattern_confidence(k: PatternKind) -> u32 {
    match k {
        PatternKind::AscendingTriangle => 95,
        PatternKind::DescendingWedge => 89,
    }
}

/// The fixed description of each pattern.
pub open spec fn pattern_description(k: PatternKind) -> Seq<char> {
    match k {
        PatternKind::AscendingTriangle => "A bullish pattern typically indicating a breakout."@,
        PatternKind::DescendingWedge => "A bearish pattern suggesting a potential price drop."@,
    }
}

/// The index of the first keyword that occurs in `text`, if any.
pub fn first_matching_rule(text: &str, keys: &Vec<&str>) -> (r: Option<usize>)
    ensures
        match r {
            Some(i) => is_first_match(text@, keys@, i as int),
            None => no_match(text@, keys@),
        },
{
    let n = keys.len();
    let mut i: usize = 0;
    while i < n
        invariant
            n == keys@.len(),
            i <= n,
            forall|j: int| 0 <= j < i ==> !seq_contains(text@, #[trigger] keys@[j]@),
        decreases n - i,
    {
        if contains_str(text, keys[i]) {
            return Some(i);
        }
        i = i + 1;
    }
    None
}

impl PatternKind {
    /// The display name of the pattern.
    pub fn name(&self) -> (r: String)
        ensures
            *self == PatternKind::AscendingTriangle ==> r@ == "Ascending Triangle"@,
            *self == PatternKind::DescendingWedge ==> r@ == "Descending Wedge"@,
    {
        match self {
            PatternKind::AscendingTriangle => String::from_str("Ascending Triangle"),
            PatternKind::DescendingWedge => String::from_str("Descending Wedge"),
        }
    }
}

impl ClassifyError {
    /// A human-readable description of the error.
    pub fn message(&self) -> (r: String)
        ensures
            *self == ClassifyError::NoPatternMatch ==> r@ == "No recognizable pattern found"@,
            *self == ClassifyError::NoTrendMatch ==> r@ == "Unable to predict trend"@,
    {
        match self {
            ClassifyError::NoPatternMatch => String::from_str("No recognizable pattern found"),
            ClassifyError::NoTrendMatch => String::from_str("Unable to predict trend"),
        }
    }
}

impl PatternRecognition {
    /// Matches `data` against "ascending triangle" and then "descending wedge"
    /// (case-sensitive substrings); fails when neither occurs.
    pub fn recognize_pattern(data: &str) -> (r: Result<Pattern, ClassifyError>)
        ensures
            r.is_ok() <==> pattern_of(data@).is_some(),
            match r {
                Ok(p) => pattern_of(data@) == Some(p.pattern_type) && p.confidence
                    == pattern_confidence(p.pattern_type) && p.description@
                    == pattern_description(p.pattern_type),
                Err(e) => e == ClassifyError::NoPatternMatch,
            },
    {
        let keys: Vec<&str> = vec!["ascending triangle", "descending wedge"];
        let found = first_matching_rule(data, &keys);
        proof {
            assert(keys@[0]@ == "ascending triangle"@);
            assert(keys@[1]@ == "descending wedge"@);
        }
        match found {
            Some(i) => {
                if i == 0 {
                    Ok(
                        Pattern {
                            pattern_type: PatternKind::AscendingTriangle,
                            confidence: 95,
                            description: String::from_str(
                                "A bullish pattern typically indicating a breakout.",
                            ),
                        },
                    )
                } else {
                    Ok(
                        Pattern {
                            pattern_type: PatternKind::DescendingWedge,
                            confidence: 89,
                            description: String::from_str(
                                "A bearish pattern suggesting a potential price drop.",
                            ),
                        },
                    )
                }
            },
            None => Err(ClassifyError::NoPatternMatch),
        }
    }
}

impl NeuralNetwork {
    /// Matches `data` against "bullish trend" and then "bearish trend" and attaches
    /// the given confidence; fails when neither occurs.
    pub fn predict_with_confidence(data: &str, confidence: u32) -> (r: Result<
        NeuralPrediction,
        ClassifyError,
    >)
        requires
            confidence <= 100,
        ensures
            r.is_ok() <==> trend_of(data@).is_some(),
            match r {
                Ok(p) => trend_of(data@) == Some(p.predicted_trend) && p.confidence
                    == confidence,
                Err(e) => e == ClassifyError::NoTrendMatch,
            },
    {
        let keys: Vec<&str> = vec!["bullish trend", "bearish trend"];
        let found = first_matching_rule(data, &keys);
        proof {
            assert(keys@[0]@ == "bullish trend"@);
            assert(keys@[1]@ == "bearish trend"@);
        }
        match found {
            Some(i) => {
                let label = if i == 0 {
                    TrendLabel::Bullish
                } else {
                    TrendLabel::Bearish
                };
                Ok(NeuralPrediction { predicted_trend: label, confidence })
            },
            None => Err(ClassifyError::NoTrendMatch),
        }
    }

    /// Predicts the trend that `data` states, with a confidence drawn from
    /// `TREND_CONFIDENCE_LOW..TREND_CONFIDENCE_HIGH`.
    pub fn run_neural_network(data: &str) -> (r: Result<NeuralPrediction, ClassifyError>)
        ensures
            r.is_ok() <==> trend_of(data@).is_some(),
            match r {
                Ok(p) => trend_of(data@) == Some(p.predicted_trend) && TREND_CONFIDENCE_LOW
                    <= p.confidence < TREND_CONFIDENCE_HIGH,
                Err(e) => e == ClassifyError::NoTrendMatch,
            },
    {
        let drawn = sample_in_range(TREND_CONFIDENCE_LOW as u64, TREND_CONFIDENCE_HIGH as u64);
        NeuralNetwork::predict_with_confidence(data, drawn as u32)
    }
}

} // verus!
