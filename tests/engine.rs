use lyzerai_core::ai::{ClassifyError, NeuralNetwork, PatternKind, PatternRecognition};
use lyzerai_core::api::{
    analysis_for_chain, analyze_request, market_snapshot, pattern_reports, sample_market, sample_patterns,
    AnalyzeRequest, RequestError,
};
use lyzerai_core::analytics::{
    AnalyticsAnalyzer, label_by_keyword, market_pattern_for, render_map, MarketAnalyzer, TrendPredictionModel,
};
use lyzerai_core::chain::analyze_large_transactions;
use lyzerai_core::config::{load_config, Config, ConfigError};
use lyzerai_core::logging::{log_debug, log_error, log_info, log_warning, LogEntry, LogLevel};
use lyzerai_core::market::{
    MarketAnalysis, MarketError, TradeVolume, TrendLabel, WhaleTransaction, MICRO_PER_UNIT,
};
use lyzerai_core::text::{contains_str, decimal_text, render_hundredths, same_text, starts_with_str};

fn micro(units: f64) -> u64 {
    (units * MICRO_PER_UNIT as f64).round() as u64
}

fn trade(symbol: &str, volume: f64) -> TradeVolume {
    TradeVolume {
        symbol: symbol.to_string(),
        volume: micro(volume),
        timestamp: "2024-01-01T00:00:00Z".to_string(),
    }
}

fn transfer(wallet: &str, amount: f64, direction: &str) -> WhaleTransaction {
    WhaleTransaction {
        wallet_address: wallet.to_string(),
        amount_transferred: micro(amount),
        direction: direction.to_string(),
        timestamp: "2024-01-01T00:00:00Z".to_string(),
    }
}

#[test]
fn volume_sums_matching_symbol_only() {
    let data = vec![trade("BTC", 1.5), trade("ETH", 10.0), trade("BTC", 2.25), trade("btc", 7.0)];
    let agg = MarketAnalysis::track_volume("BTC", data).unwrap();
    assert_eq!(agg.symbol, "BTC");
    assert_eq!(agg.total_volume, micro(3.75) as u128);
}

#[test]
fn volume_without_symbol_is_not_found() {
    let data = vec![trade("ETH", 10.0)];
    match MarketAnalysis::track_volume("BTC", data) {
        Err(e) => {
            assert!(matches!(&e, MarketError::NoVolumeData { symbol } if symbol == "BTC"));
            assert_eq!(e.message(), "No data found for symbol BTC");
        }
        Ok(_) => panic!("expected an error"),
    }
    assert!(MarketAnalysis::track_volume("BTC", vec![]).is_err());
}

#[test]
fn volume_of_largest_amounts_does_not_overflow() {
    let big = TradeVolume { symbol: "X".to_string(), volume: u64::MAX, timestamp: String::new() };
    let data = vec![big.clone(), big.clone(), big];
    let agg = MarketAnalysis::track_volume("X", data).unwrap();
    assert_eq!(agg.total_volume, 3 * (u64::MAX as u128));
}

#[test]
fn volume_zero_records_still_found() {
    let agg = MarketAnalysis::track_volume("BTC", vec![trade("BTC", 0.0)]).unwrap();
    assert_eq!(agg.total_volume, 0);
}

#[test]
fn whales_keep_large_transfers_in_order() {
    let data = vec![
        transfer("a", 1500.0, "in"),
        transfer("b", 1000.0, "in"),
        transfer("c", 999.0, "out"),
        transfer("d", 1000.5, "out"),
    ];
    let found = MarketAnalysis::track_whale_transactions(data).unwrap();
    let wallets: Vec<&str> = found.iter().map(|t| t.wallet_address.as_str()).collect();
    assert_eq!(wallets, vec!["a", "d"]);
    assert_eq!(found[1].amount_transferred, micro(1000.5));
}

#[test]
fn whales_none_is_error() {
    let data = vec![transfer("a", 1000.0, "in"), transfer("b", 10.0, "out")];
    let e = MarketAnalysis::track_whale_transactions(data).unwrap_err();
    assert!(matches!(e, MarketError::NoWhaleTransactions));
    assert_eq!(e.message(), "No whale transactions detected");
    assert!(MarketAnalysis::track_whale_transactions(vec![]).is_err());
}

#[test]
fn flow_bullish_bearish_neutral() {
    let bull = vec![transfer("a", 500.0, "in"), transfer("b", 200.0, "out")];
    assert_eq!(MarketAnalysis::analyze_market_behavior(bull), TrendLabel::Bullish);
    let bear = vec![transfer("a", 100.0, "in"), transfer("b", 200.0, "out")];
    assert_eq!(MarketAnalysis::analyze_market_behavior(bear), TrendLabel::Bearish);
    let even = vec![transfer("a", 100.0, "in"), transfer("b", 100.0, "out")];
    assert_eq!(MarketAnalysis::analyze_market_behavior(even), TrendLabel::Neutral);
}

#[test]
fn flow_empty_and_zero_are_neutral() {
    assert_eq!(MarketAnalysis::analyze_market_behavior(vec![]), TrendLabel::Neutral);
    let zero = vec![transfer("a", 0.0, "in"), transfer("b", 0.0, "out")];
    assert_eq!(MarketAnalysis::analyze_market_behavior(zero), TrendLabel::Neutral);
}

#[test]
fn flow_ignores_other_directions() {
    let data = vec![transfer("a", 5000.0, "IN"), transfer("b", 1.0, "out"), transfer("c", 9.0, "sideways")];
    assert_eq!(MarketAnalysis::analyze_market_behavior(data), TrendLabel::Bearish);
}

#[test]
fn flow_messages() {
    assert_eq!(
        TrendLabel::Bullish.behavior_message(),
        "Bullish market trend detected based on wallet inflows."
    );
    assert_eq!(
        TrendLabel::Bearish.behavior_message(),
        "Bearish market trend detected based on wallet outflows."
    );
    assert_eq!(TrendLabel::Neutral.behavior_message(), "Neutral market detected.");
}

#[test]
fn pattern_ascending_triangle() {
    let p = PatternRecognition::recognize_pattern("we see an ascending triangle forming").unwrap();
    assert_eq!(p.pattern_type, PatternKind::AscendingTriangle);
    assert_eq!(p.confidence, 95);
    assert_eq!(p.description, "A bullish pattern typically indicating a breakout.");
    assert_eq!(p.pattern_type.name(), "Ascending Triangle");
}

#[test]
fn pattern_descending_wedge() {
    let p = PatternRecognition::recognize_pattern("a descending wedge here").unwrap();
    assert_eq!(p.pattern_type, PatternKind::DescendingWedge);
    assert_eq!(p.confidence, 89);
    assert_eq!(p.description, "A bearish pattern suggesting a potential price drop.");
    assert_eq!(p.pattern_type.name(), "Descending Wedge");
}

#[test]
fn pattern_priority_and_case() {
    let p = PatternRecognition::recognize_pattern("descending wedge then ascending triangle").unwrap();
    assert_eq!(p.pattern_type, PatternKind::AscendingTriangle);
    assert!(PatternRecognition::recognize_pattern("Ascending Triangle").is_err());
}

#[test]
fn pattern_no_signal_fails() {
    let e = PatternRecognition::recognize_pattern("no signal").unwrap_err();
    assert_eq!(e, ClassifyError::NoPatternMatch);
    assert_eq!(e.message(), "No recognizable pattern found");
}

#[test]
fn trend_bullish_with_confidence_range() {
    for _ in 0..50 {
        let p = NeuralNetwork::run_neural_network("bullish trend detected").unwrap();
        assert_eq!(p.predicted_trend, TrendLabel::Bullish);
        assert!(p.confidence >= 70 && p.confidence < 100);
    }
}

#[test]
fn trend_bearish_and_sideways() {
    let p = NeuralNetwork::run_neural_network("bearish trend detected").unwrap();
    assert_eq!(p.predicted_trend, TrendLabel::Bearish);
    let e = NeuralNetwork::run_neural_network("sideways").unwrap_err();
    assert_eq!(e, ClassifyError::NoTrendMatch);
    assert_eq!(e.message(), "Unable to predict trend");
}

#[test]
fn trend_with_fixed_confidence() {
    let p = NeuralNetwork::predict_with_confidence("a bearish trend detected", 81).unwrap();
    assert_eq!(p.predicted_trend, TrendLabel::Bearish);
    assert_eq!(p.confidence, 81);
}

#[test]
fn analyze_solana_mentions_chain() {
    let req = AnalyzeRequest { chain: "Solana".to_string(), data: "bullish market data".to_string() };
    let resp = analyze_request(&req).unwrap();
    assert!(resp.result.contains("solana"));
    assert_eq!(resp.result, "Chain: solana, Result: High confidence in bullish trend");
}

#[test]
fn analyze_other_chains() {
    assert_eq!(
        analysis_for_chain("ethereum"),
        "Chain: ethereum, Result: Neutral trend with slight bearish pressure"
    );
    assert_eq!(analysis_for_chain("tezos"), "Chain: tezos, Result: Unsupported chain analysis");
}

#[test]
fn analyze_empty_data_is_bad_request() {
    let req = AnalyzeRequest { chain: "solana".to_string(), data: String::new() };
    let e = analyze_request(&req).unwrap_err();
    assert_eq!(e, RequestError::EmptyData);
    assert_eq!(e.status(), 400);
    assert_eq!(e.message(), "Invalid data: Data cannot be empty");
}

#[test]
fn pattern_route_samples() {
    let ps = sample_patterns();
    assert_eq!(ps.len(), 2);
    assert_eq!(ps[0].description, "Double top formation detected");
    assert!(ps[0].confidence >= 70 && ps[0].confidence < 95);
    assert_eq!(ps[1].description, "Ascending triangle with breakout");
    assert!(ps[1].confidence >= 80 && ps[1].confidence < 98);
    assert_eq!(ps[0].pattern_id.len(), 36);
    assert_ne!(ps[0].pattern_id, ps[1].pattern_id);
}

#[test]
fn market_route_snapshot() {
    let bull = market_snapshot(true, 12345);
    assert_eq!(bull.trend, "Bullish");
    assert_eq!(bull.significant_address, "0xWHALEBULL123456");
    assert_eq!(bull.volume, 12345);
    let bear = market_snapshot(false, 1);
    assert_eq!(bear.trend, "Bearish");
    assert_eq!(bear.significant_address, "0xWHALEBEAR654321");
    let m = sample_market();
    assert!(m.volume >= 10_000_000 && m.volume < 50_000_000);
    assert!(m.trend == "Bullish" || m.trend == "Bearish");
}

#[test]
fn whale_activity_labels() {
    let analyzer = MarketAnalyzer::new();
    let labels = analyzer.detect_whale_activity();
    assert_eq!(labels.len(), 3);
    assert_eq!(labels[0], ("0xWhale1".to_string(), "Market moving".to_string()));
    assert_eq!(labels[1], ("0xWhale2".to_string(), "Market moving".to_string()));
    assert_eq!(labels[2], ("0xWhale3".to_string(), "Non-market impact".to_string()));
}

#[test]
fn large_transactions_labels() {
    let labels = analyze_large_transactions();
    assert_eq!(labels[0].1, "Market-moving transaction");
    assert_eq!(labels[1].1, "Non-market impacting");
    assert_eq!(labels[2].1, "Market-moving transaction");
    assert_eq!(labels[2].0, "0xWhale3");
}

#[test]
fn keyword_labels_and_map_rendering() {
    let entries = vec![("k1", "has KEY"), ("k2", "no")];
    let labels = label_by_keyword(&entries, "KEY", "yes", "no");
    assert_eq!(render_map(&labels), "{\"k1\": \"yes\", \"k2\": \"no\"}");
    assert_eq!(render_map(&vec![]), "{}");
}

#[test]
fn market_pattern_by_text() {
    let p = market_pattern_for("very bullish", 90);
    assert_eq!(p.pattern_id, "bullish_ascending_triangle");
    assert_eq!(p.description, "Bullish Ascending Triangle Detected");
    let q = market_pattern_for("calm", 86);
    assert_eq!(q.pattern_id, "bearish_head_and_shoulders");
    assert_eq!(q.confidence, 86);
    let r = MarketAnalyzer::new().recognize_pattern("bullish");
    assert!(r.confidence >= 85 && r.confidence < 99);
}

#[test]
fn analyzer_reports() {
    let analyzer = MarketAnalyzer::new();
    let eth = AnalyzeRequest { chain: "ETHEREUM".to_string(), data: "x".to_string() };
    assert_eq!(analyzer.analyze_request(&eth).result, "Ethereum blockchain analysis coming soon.");
    let other = AnalyzeRequest { chain: "cardano".to_string(), data: "x".to_string() };
    assert_eq!(analyzer.analyze_request(&other).result, "Unsupported chain.");
    let sol = AnalyzeRequest { chain: "solana".to_string(), data: "bullish".to_string() };
    let text = analyzer.analyze_request(&sol).result;
    assert!(text.starts_with("Market Analysis: Predicted Trend: "));
    assert!(text.contains("Whale Activity: {\"0xWhale1\": \"Market moving\""));
    assert!(text.contains("Detected Pattern: Bullish Ascending Triangle Detected with confidence 0."));
}

#[test]
fn trend_words() {
    assert_eq!(TrendPredictionModel::trend_word(true), "Upward");
    assert_eq!(TrendPredictionModel::trend_word(false), "Downward");
    let w = TrendPredictionModel.predict_trend("anything");
    assert!(w == "Upward" || w == "Downward");
}

#[test]
fn hundredths_rendering() {
    assert_eq!(render_hundredths(12345), "123.45");
    assert_eq!(render_hundredths(1205), "12.05");
    assert_eq!(render_hundredths(7), "0.07");
    assert_eq!(render_hundredths(95), "0.95");
}

#[test]
fn text_helpers() {
    assert!(contains_str("abcabd", "abd"));
    assert!(!contains_str("abcab", "abd"));
    assert!(contains_str("x", ""));
    assert!(starts_with_str("https://x", "http"));
    assert!(!starts_with_str("htt", "http"));
    assert!(same_text("in", "in"));
    assert!(!same_text("in", "out"));
}

#[test]
fn config_defaults_validate() {
    let c = load_config(None, None, None, None).unwrap();
    assert_eq!(c.solana_rpc_url, "https://api.mainnet-beta.solana.com");
    assert_eq!(c.ethereum_rpc_url, "https://mainnet.infura.io/v3/your-project-id");
    assert_eq!(c.api_key, "your-api-key");
    assert_eq!(c.log_level, "info");
}

#[test]
fn config_errors_in_order() {
    let e = load_config(Some("ftp://x".to_string()), Some("bad".to_string()), None, None).unwrap_err();
    assert_eq!(e, ConfigError::InvalidSolanaUrl);
    assert_eq!(e.message(), "Invalid Solana RPC URL.");
    let e = load_config(None, Some("bad".to_string()), None, None).unwrap_err();
    assert_eq!(e, ConfigError::InvalidEthereumUrl);
    let e = load_config(None, None, Some(String::new()), None).unwrap_err();
    assert_eq!(e, ConfigError::MissingApiKey);
    let e = load_config(None, None, None, Some("trace".to_string())).unwrap_err();
    assert_eq!(e, ConfigError::InvalidLogLevel);
    let c = Config::with_defaults(None, None, None, Some("warn".to_string()));
    assert!(c.validate().is_ok());
}

#[test]
fn logging_appends_records() {
    let mut sink: Vec<LogEntry> = Vec::new();
    log_info(&mut sink, "a");
    log_warning(&mut sink, "b");
    log_error(&mut sink, "c");
    log_debug(&mut sink, "d");
    let levels: Vec<LogLevel> = sink.iter().map(|e| e.level).collect();
    assert_eq!(levels, vec![LogLevel::Info, LogLevel::Warning, LogLevel::Error, LogLevel::Debug]);
    assert_eq!(sink[2].message, "c");
}

#[test]
fn pattern_reports_keep_given_values() {
    let ps = pattern_reports("id-one".to_string(), 71, "id-two".to_string(), 97);
    assert_eq!(ps.len(), 2);
    assert_eq!(ps[0].pattern_id, "id-one");
    assert_eq!(ps[0].confidence, 71);
    assert_eq!(ps[0].description, "Double top formation detected");
    assert_eq!(ps[1].pattern_id, "id-two");
    assert_eq!(ps[1].confidence, 97);
    assert_eq!(ps[1].description, "Ascending triangle with breakout");
}

#[test]
fn pattern_route_ids_are_hyphenated_uuids() {
    for p in sample_patterns() {
        let chars: Vec<char> = p.pattern_id.chars().collect();
        assert_eq!(chars.len(), 36);
        for (i, c) in chars.iter().enumerate() {
            if i == 8 || i == 13 || i == 18 || i == 23 {
                assert_eq!(*c, '-');
            } else {
                assert!(c.is_ascii_digit() || ('a'..='f').contains(c));
            }
        }
    }
}

#[test]
fn analyzer_lowered_chain_reports() {
    let analyzer = MarketAnalyzer::new();
    assert_eq!(analyzer.analyze_lowered("ethereum", "x").result, "Ethereum blockchain analysis coming soon.");
    assert_eq!(analyzer.analyze_lowered("ETHEREUM", "x").result, "Unsupported chain.");
    let sol = analyzer.analyze_lowered("solana", "bearish market data").result;
    assert!(sol.contains("Predicted Trend"));
    assert!(sol.contains("Detected Pattern: Bearish Head and Shoulders Detected with confidence 0."));
}

#[test]
fn analyzer_trait_answers_market_analysis() {
    let analyzer = MarketAnalyzer::new();
    let req = AnalyzeRequest { chain: "solana".to_string(), data: "bullish market data".to_string() };
    let resp = AnalyticsAnalyzer::analyze(&analyzer, &req);
    assert!(resp.result.contains("Predicted Trend"));
    let eth = AnalyzeRequest { chain: "Ethereum".to_string(), data: String::new() };
    assert_eq!(AnalyticsAnalyzer::analyze(&analyzer, &eth).result, "Ethereum blockchain analysis coming soon.");
}

#[test]
fn decimal_rendering() {
    assert_eq!(decimal_text(0), "0");
    assert_eq!(decimal_text(9), "9");
    assert_eq!(decimal_text(1050), "1050");
    assert_eq!(decimal_text(u64::MAX), "18446744073709551615");
}
