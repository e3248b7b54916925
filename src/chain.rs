//! Chain-level request shapes and the large-transfer impact table.
use vstd::prelude::*;
use crate::analytics::{label_by_keyword, labels_entries};
use crate::api::{AnalyzeRequest, AnalyzeResponse};

verus! {

/// A request to analyse raw transaction data of one chain.
#[derive(Clone, Debug)]
pub struct BlockchainAnalysisRequest {
    pub chain: String,
    pub transaction_data: String,
}

/// The outcome of a chain analysis with its details.
#[derive(Clone, Debug)]
pub struct BlockchainAnalysisResponse {
    pub result: String,
    pub details: String,
}

/// An analyzer of chain-level requests, for services that reach a chain's nodes.
pub trait BlockchainAnalyzer {
    fn analyze(&self, request: &AnalyzeRequest) -> AnalyzeResponse;
}

/// Labels the tracked large transfers: those in SOL move the market.
pub fn analyze_large_transactions() -> (r: Vec<(String, String)>)
    ensures
        labels_entries(
            r@,
            seq![
                ("0xWhale1", "1000 SOL transferred"),
                ("0xWhale2", "500 ETH transferred"),
                ("0xWhale3", "2500 SOL transferred"),
            ],
            "SOL"@,
            "Market-moving transaction"@,
            "Non-market impacting"@,
        ),
{
    let transactions: Vec<(&str, &str)> = vec![
        ("0xWhale1", "1000 SOL transferred"),
        ("0xWhale2", "500 ETH transferred"),
        ("0xWhale3", "2500 SOL transferred"),
    ];
    label_by_keyword(&transactions, "SOL", "Market-moving transaction", "Non-market impacting")
}

} // verus!
