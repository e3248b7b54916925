//! Request and response shapes of the HTTP surface, and the decisions behind
//! each route.
use vstd::prelude::*;
use crate::sampling::{is_hyphenated_uuid, new_uuid_text, sample_in_range, sample_ratio};
use crate::text::{lower_of, lowercase, same_text};

verus! {

/// A request to analyse data of one chain.
#[derive(Clone, Debug)]
pub struct AnalyzeRequest {
    pub chain: String,
    pub data: String,
}

/// The outcome of an analysis, as text.
#[derive(Clone, Debug)]
pub struct AnalyzeResponse {
    pub result: String,
}

/// A detected pattern as the pattern route reports it.
#[derive(Clone, Debug)]
pub struct PatternResponse {
    pub pattern_id: String,
    pub description: String,
    /// Confidence in percent.
    pub confidence: u32,
}

/// A market snapshot as the market route reports it.
#[derive(Clone, Debug)]
pub struct MarketResponse {
    pub trend: String,
    /// Volume in hundredths of a unit.
    pub volume: u64,
    pub significant_address: String,
}

/// A request that cannot be analysed.
#[derive(Clone, Copy, Debug, PartialEq, Eq, Structural)]
pub enum RequestError {
    /// The request carried no data.
    EmptyData,
}

/// The verdict that the analyse route gives for a lower-cased chain name.
pub open spec fn chain_verdict(chain: Seq<char>) -> Seq<char> {
    if chain == "solana"@ {
        "High confidence in bullish trend"@
    } else if chain == "ethereum"@ {
        "Neutral trend with slight bearish pressure"@
    } else {
        "Unsupported chain analysis"@
    }
}

/// The text that the analyse route returns for a lower-cased chain name.
pub open spec fn analysis_text(chain: Seq<char>) -> Seq<char> {
    "Chain: "@ + chain + ", Result: "@ + chain_verdict(chain)
}

/// The snapshot that the market route reports for a drawn direction and volume.
pub open spec fn snapshot_fields(bullish: bool) -> (Seq<char>, Seq<char>) {
    if bullish {
        ("Bullish"@, "0xWHALEBULL123456"@)
    } else {
        ("Bearish"@, "0xWHALEBEAR654321"@)
    }
}

impl RequestError {
    /// The HTTP status that reports the error.
    pub fn status(&self) -> (r: u16)
        ensures
            r == 400,
    {
        400
    }

    /// A human-readable description of the error.
    pub fn message(&self) -> (r: String)
        ensures
            r@ == "Invalid data: Data cannot be empty"@,
    {
        String::from_str("Invalid data: Data cannot be empty")
    }
}

/// The analysis text for a chain name that is already lower-cased.
pub fn analysis_for_chain(chain: &str) -> (r: String)
    ensures
        r@ == analysis_text(chain@),
{
    let verdict = if same_text(chain, "solana") {
        "High confidence in bullish trend"
    } else if same_text(chain, "ethereum") {
        "Neutral trend with slight bearish pressure"
    } else {
        "Unsupported chain analysis"
    };
    let head = String::from_str("Chain: ");
    head.concat(chain).concat(", Result: ").concat(verdict)
}

/// Analyses a request: empty data is rejected, otherwise the lower-cased chain
/// name selects the verdict.
pub fn analyze_request(req: &AnalyzeRequest) -> (r: Result<AnalyzeResponse, RequestError>)
    ensures
        r.is_err() <==> req.data@.len() == 0,
        match r {
            Ok(resp) => resp.result@ == analysis_text(lower_of(req.chain@)),
            Err(e) => e == RequestError::EmptyData,
        },
{
    if req.data.as_str().unicode_len() == 0 {
        return Err(RequestError::EmptyData);
    }
    let chain = lowercase(req.chain.as_str());
    Ok(AnalyzeResponse { result: analysis_for_chain(chain.as_str()) })
}

/// The two pattern reports for the given identifiers and confidences: a double
/// top and an ascending triangle, in that order.
pub fn pattern_reports(id1: String, c1: u32, id2: String, c2: u32) -> (r: Vec<PatternResponse>)
    requires
        c1 <= 100,
        c2 <= 100,
    ensures
        r@.len() == 2,
        r@[0].pattern_id == id1,
        r@[0].description@ == "Double top formation detected"@,
        r@[0].confidence == c1,
        r@[1].pattern_id == id2,
        r@[1].description@ == "Ascending triangle with breakout"@,
        r@[1].confidence == c2,
{
    let first = PatternResponse {
        pattern_id: id1,
        description: String::from_str("Double top formation detected"),
        confidence: c1,
    };
    let second = PatternResponse {
        pattern_id: id2,
        description: String::from_str("Ascending triangle with breakout"),
        confidence: c2,
    };
    vec![first, second]
}

/// Two pattern reports with fresh identifiers and drawn confidences: a double top
/// at 70 to 94 percent and an ascending triangle at 80 to 97 percent.
pub fn sample_patterns() -> (r: Vec<PatternResponse>)
    ensures
        r@.len() == 2,
        r@[0].description@ == "Double top formation detected"@,
        70 <= r@[0].confidence < 95,
        is_hyphenated_uuid(r@[0].pattern_id@),
        r@[1].description@ == "Ascending triangle with breakout"@,
        80 <= r@[1].confidence < 98,
        is_hyphenated_uuid(r@[1].pattern_id@),
{
    let id1 = new_uuid_text();
    let c1 = sample_in_range(70, 95) as u32;
    let id2 = new_uuid_text();
    let c2 = sample_in_range(80, 98) as u32;
    pattern_reports(id1, c1, id2, c2)
}

/// The market snapshot for a direction and a volume in hundredths.
pub fn market_snapshot(bullish: bool, volume: u64) -> (r: MarketResponse)
    ensures
        r.trend@ == snapshot_fields(bullish).0,
        r.significant_address@ == snapshot_fields(bullish).1,
        r.volume == volume,
{
    if bullish {
        MarketResponse {
            trend: String::from_str("Bullish"),
            volume,
            significant_address: String::from_str("0xWHALEBULL123456"),
        }
    } else {
        MarketResponse {
            trend: String::from_str("Bearish"),
            volume,
            significant_address: String::from_str("0xWHALEBEAR654321"),
        }
    }
}

/// A market snapshot with a drawn direction (bullish with chance 6 in 10) and a
/// drawn volume from 100000.00 up to 500000.00 units.
pub fn sample_market() -> (r: MarketResponse)
    ensures
        exists|b: bool|
            r.trend@ == #[trigger] snapshot_fields(b).0 && r.significant_address@
                == snapshot_fields(b).1,
        10_000_000 <= r.volume < 50_000_000,
{
    let bullish = sample_ratio(6, 10);
    let volume = sample_in_range(10_000_000, 50_000_000);
    market_snapshot(bullish, volume)
}

} // verus!
