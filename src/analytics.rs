//! The market analyzer: a trend guess, whale-activity labels, a market pattern
//! and the per-chain report that combines them.
use vstd::prelude::*;
use crate::api::{AnalyzeRequest, AnalyzeResponse};
use crate::sampling::{sample_in_range, sample_ratio};
use crate::text::{contains_str, hundredths_text, lower_of, lowercase, render_hundredths, same_text, seq_contains};

verus! {

/// A pattern that the analyzer reports for a text.
#[derive(Clone, Debug)]
pub struct MarketPattern {
    pub pattern_id: String,
    pub description: String,
    /// Confidence in percent.
    pub confidence: u32,
}

/// Guesses a price direction.
pub struct TrendPredictionModel;

/// Combines trend, volume, whale and pattern analysis for a chain.
pub struct MarketAnalyzer {
    neural_model: TrendPredictionModel,
}

/// An analyzer that answers analysis requests.
pub trait AnalyticsAnalyzer {
    fn analyze(&self, request: &AnalyzeRequest) -> (r: AnalyzeResponse)
        ensures
            answers_request(request.chain@, request.data@, r.result@),
    ;
}

/// The label that `text` gets: `hit` when `keyword` occurs in it, else `miss`.
pub open spec fn keyword_label(text: Seq<char>, keyword: Seq<char>, hit: Seq<char>, miss: Seq<char>) -> Seq<char> {
    if seq_contains(text, keyword) {
        hit
    } else {
        miss
    }
}

/// `r` pairs each entry's key with the label of its text.
pub open spec fn labels_entries(
    r: Seq<(String, String)>,
    entries: Seq<(&str, &str)>,
    keyword: Seq<char>,
    hit: Seq<char>,
    miss: Seq<char>,
) -> bool {
    r.len() == entries.len() && forall|i: int|
        0 <= i < entries.len() ==> (#[trigger] r[i]).0@ == entries[i].0@ && r[i].1@
            == keyword_label(entries[i].1@, keyword, hit, miss)
}

/// `r` labels the tracked whale transfers: those in SOL move the market.
pub open spec fn whale_activity_labels(r: Seq<(String, String)>) -> bool {
    labels_entries(
        r,
        seq![
            ("0xWhale1", "Transfer of 1000 SOL detected"),
            ("0xWhale2", "Transfer of 2000 SOL detected"),
            ("0xWhale3", "Transfer of 1500 ETH detected"),
        ],
        "SOL"@,
        "Market moving"@,
        "Non-market impact"@,
    )
}

/// `r` is a market summary: a guessed direction, a volume from 100000.00 up to
/// 1000000.00 units and the whale-activity labels.
pub open spec fn is_market_summary(r: Seq<char>) -> bool {
    exists|trend: Seq<char>, volume: nat, whales: Seq<(String, String)>|
        (trend == "Upward"@ || trend == "Downward"@) && 10_000_000 <= volume < 100_000_000
            && whale_activity_labels(whales) && r == #[trigger] summary_text(trend, volume, whales)
}

/// One entry of a map rendering: the quoted key, a colon and the quoted value.
pub open spec fn entry_text(e: (String, String)) -> Seq<char> {
    "\""@ + e.0@ + "\": \""@ + e.1@ + "\""@
}

/// The entries of a map rendering, separated by a comma and a space.
pub open spec fn entries_text(s: Seq<(String, String)>) -> Seq<char>
    decreases s.len(),
{
    if s.len() == 0 {
        Seq::empty()
    } else if s.len() == 1 {
        entry_text(s[0])
    } else {
        entries_text(s.drop_last()) + ", "@ + entry_text(s.last())
    }
}

/// A map rendering: its entries in braces.
pub open spec fn map_text(s: Seq<(String, String)>) -> Seq<char> {
    "{"@ + entries_text(s) + "}"@
}

/// The summary of a trend, a volume in hundredths and whale-activity labels.
pub open spec fn summary_text(trend: Seq<char>, volume: nat, whales: Seq<(String, String)>) -> Seq<char> {
    "Predicted Trend: "@ + trend + ". Volume: "@ + hundredths_text(volume) + " SOL. Whale Activity: "@
        + map_text(whales)
}

/// The pattern fields that a text gets: bullish texts an ascending triangle,
/// the rest a head and shoulders.
pub open spec fn market_pattern_fields(text: Seq<char>) -> (Seq<char>, Seq<char>) {
    if seq_contains(text, "bullish"@) {
        ("bullish_ascending_triangle"@, "Bullish Ascending Triangle Detected"@)
    } else {
        ("bearish_head_and_shoulders"@, "Bearish Head and Shoulders Detected"@)
    }
}

/// The report for a Solana request, from its market summary and its pattern.
pub open spec fn solana_report_text(summary: Seq<char>, description: Seq<char>, confidence: nat) -> Seq<char> {
    "Market Analysis: "@ + summary + ". Detected Pattern: "@ + description + " with confidence "@
        + hundredths_text(confidence)
}

/// The report for a chain other than Solana, by its lower-cased name.
pub open spec fn other_chain_text(chain: Seq<char>) -> Seq<char> {
    if chain == "ethereum"@ {
        "Ethereum blockchain analysis coming soon."@
    } else {
        "Unsupported chain."@
    }
}

/// `result` answers a request for the chain named `chain` (before lower-casing)
/// with the data `data`: the full report for Solana, a fixed sentence otherwise.
pub open spec fn answers_request(chain: Seq<char>, data: Seq<char>, result: Seq<char>) -> bool {
    answers_lowered(lower_of(chain), data, result)
}

/// `result` answers a request for the lower-cased chain name `chain` with the
/// data `data`.
pub open spec fn answers_lowered(chain: Seq<char>, data: Seq<char>, result: Seq<char>) -> bool {
    if chain == "solana"@ {
        exists|summary: Seq<char>, confidence: nat|
            is_market_summary(summary) && 85 <= confidence < 99 && result
                == #[trigger] solana_report_text(
                summary,
                market_pattern_fields(data).1,
                confidence,
            )
    } else {
        result == other_chain_text(chain)
    }
}

/// Pairs each key with `hit` when `keyword` occurs in its text, else with `miss`.
pub fn label_by_keyword(entries: &Vec<(&str, &str)>, keyword: &str, hit: &str, miss: &str) -> (r: Vec<(String, String)>)
    ensures
        labels_entries(r@, entries@, keyword@, hit@, miss@),
{
    let n = entries.len();
    let mut r: Vec<(String, String)> = Vec::new();
    let mut i: usize = 0;
    while i < n
        invariant
            n == entries@.len(),
            i <= n,
            r@.len() == i,
            forall|j: int|
                0 <= j < i ==> (#[trigger] r@[j]).0@ == entries@[j].0@ && r@[j].1@
                    == keyword_label(entries@[j].1@, keyword@, hit@, miss@),
        decreases n - i,
    {
        let (key, text) = entries[i];
        let label = if contains_str(text, keyword) {
            hit
        } else {
            miss
        };
        r.push((String::from_str(key), String::from_str(label)));
        i = i + 1;
    }
    r
}

/// Renders pairs as a brace-enclosed list of `"key": "value"` entries, in order
/// and without escaping.
pub fn render_map(pairs: &Vec<(String, String)>) -> (r: String)
    ensures
        r@ == map_text(pairs@),
{
    let n = pairs.len();
    let mut body = String::new();
    let mut i: usize = 0;
    while i < n
        invariant
            n == pairs@.len(),
            i <= n,
            body@ == entries_text(pairs@.take(i as int)),
        decreases n - i,
    {
        let ghost prefix = pairs@.take(i as int);
        proof {
            assert(pairs@.take(i + 1).drop_last() =~= prefix);
            assert(pairs@.take(i + 1).last() == pairs@[i as int]);
        }
        if i > 0 {
            body.append(", ");
        }
        body.append("\"");
        body.append(pairs[i].0.as_str());
        body.append("\": \"");
        body.append(pairs[i].1.as_str());
        body.append("\"");
        proof {
            if i == 0 {
                assert(body@ =~= entry_text(pairs@[0]));
                assert(pairs@.take(1)[0] == pairs@[0]);
            } else {
                assert(body@ =~= entries_text(prefix) + ", "@ + entry_text(pairs@[i as int]));
            }
        }
        i = i + 1;
    }
    assert(pairs@.take(n as int) =~= pairs@);
    let open = String::from_str("{");
    let r = open.concat(body.as_str()).concat("}");
    r
}

/// The summary of a trend, a volume in hundredths and whale-activity labels.
pub fn market_summary(trend: &str, volume: u64, whales: &Vec<(String, String)>) -> (r: String)
    ensures
        r@ == summary_text(trend@, volume as nat, whales@),
{
    let head = String::from_str("Predicted Trend: ");
    let vol = render_hundredths(volume);
    let map = render_map(whales);
    let r = head.concat(trend).concat(". Volume: ").concat(vol.as_str()).concat(
        " SOL. Whale Activity: ",
    ).concat(map.as_str());
    assert(r@ =~= summary_text(trend@, volume as nat, whales@));
    r
}

/// The pattern for a text with the given confidence.
pub fn market_pattern_for(data: &str, confidence: u32) -> (r: MarketPattern)
    requires
        confidence <= 100,
    ensures
        r.pattern_id@ == market_pattern_fields(data@).0,
        r.description@ == market_pattern_fields(data@).1,
        r.confidence == confidence,
{
    if contains_str(data, "bullish") {
        MarketPattern {
            pattern_id: String::from_str("bullish_ascending_triangle"),
            description: String::from_str("Bullish Ascending Triangle Detected"),
            confidence,
        }
    } else {
        MarketPattern {
            pattern_id: String::from_str("bearish_head_and_shoulders"),
            description: String::from_str("Bearish Head and Shoulders Detected"),
            confidence,
        }
    }
}

/// The report for a Solana request, from its market summary and its pattern.
pub fn solana_report(summary: &str, pattern: &MarketPattern) -> (r: String)
    ensures
        r@ == solana_report_text(summary@, pattern.description@, pattern.confidence as nat),
{
    let head = String::from_str("Market Analysis: ");
    let conf = render_hundredths(pattern.confidence as u64);
    let r = head.concat(summary).concat(". Detected Pattern: ").concat(
        pattern.description.as_str(),
    ).concat(" with confidence ").concat(conf.as_str());
    assert(r@ =~= solana_report_text(summary@, pattern.description@, pattern.confidence as nat));
    r
}

impl TrendPredictionModel {
    /// The word for a direction.
    pub fn trend_word(upward: bool) -> (r: String)
        ensures
            upward ==> r@ == "Upward"@,
            !upward ==> r@ == "Downward"@,
    {
        if upward {
            String::from_str("Upward")
        } else {
            String::from_str("Downward")
        }
    }

    /// Guesses "Upward" with chance 7 in 10, else "Downward"; the text is not read.
    pub fn predict_trend(&self, data: &str) -> (r: String)
        ensures
            r@ == "Upward"@ || r@ == "Downward"@,
    {
        let upward = sample_ratio(7, 10);
        TrendPredictionModel::trend_word(upward)
    }
}

impl MarketAnalyzer {
    pub fn new() -> (r: Self) {
        MarketAnalyzer { neural_model: TrendPredictionModel }
    }

    /// Labels the tracked whale transfers: those in SOL move the market.
    pub fn detect_whale_activity(&self) -> (r: Vec<(String, String)>)
        ensures
            whale_activity_labels(r@),
    {
        let whale_data: Vec<(&str, &str)> = vec![
            ("0xWhale1", "Transfer of 1000 SOL detected"),
            ("0xWhale2", "Transfer of 2000 SOL detected"),
            ("0xWhale3", "Transfer of 1500 ETH detected"),
        ];
        label_by_keyword(&whale_data, "SOL", "Market moving", "Non-market impact")
    }

    /// A market summary from a trend guess, a volume drawn from 100000.00 up to
    /// 1000000.00 units and the whale-activity labels.
    pub fn analyze_market(&self, data: &str) -> (r: String)
        ensures
            is_market_summary(r@),
    {
        let trend = self.neural_model.predict_trend(data);
        let volume = sample_in_range(10_000_000, 100_000_000);
        let whales = self.detect_whale_activity();
        market_summary(trend.as_str(), volume, &whales)
    }

    /// The pattern of a text, with a confidence drawn from 85 up to 98 percent.
    pub fn recognize_pattern(&self, data: &str) -> (r: MarketPattern)
        ensures
            r.pattern_id@ == market_pattern_fields(data@).0,
            r.description@ == market_pattern_fields(data@).1,
            85 <= r.confidence < 99,
    {
        let confidence = sample_in_range(85, 99);
        market_pattern_for(data, confidence as u32)
    }

    /// The report for a chain name that is already lower-cased: a full analysis
    /// of `data` for Solana, a fixed sentence for other chains.
    pub fn analyze_lowered(&self, chain: &str, data: &str) -> (r: AnalyzeResponse)
        ensures
            answers_lowered(chain@, data@, r.result@),
    {
        if same_text(chain, "solana") {
            let summary = self.analyze_market(data);
            let pattern = self.recognize_pattern(data);
            let result = solana_report(summary.as_str(), &pattern);
            AnalyzeResponse { result }
        } else if same_text(chain, "ethereum") {
            AnalyzeResponse { result: String::from_str("Ethereum blockchain analysis coming soon.") }
        } else {
            AnalyzeResponse { result: String::from_str("Unsupported chain.") }
        }
    }

    /// The report for a request; the chain name is compared lower-cased.
    pub fn analyze_request(&self, request: &AnalyzeRequest) -> (r: AnalyzeResponse)
        ensures
            answers_request(request.chain@, request.data@, r.result@),
    {
        let chain = lowercase(request.chain.as_str());
        self.analyze_lowered(chain.as_str(), request.data.as_str())
    }
}

impl AnalyticsAnalyzer for MarketAnalyzer {
    fn analyze(&self, request: &AnalyzeRequest) -> (r: AnalyzeResponse) {
        self.analyze_request(request)
    }
}

} // verus!
