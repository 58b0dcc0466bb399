use betting_platform::data_normalizer::{
    calculate_confidence, DataNormalizer, DataSource, DataTransformer, MarketMetadata, MarketStatus,
    NormalizedMarketData, NormalizedOutcome, NormalizedPrices, NormalizedVolume, PolymarketMarketData,
    NORMALIZATION_VERSION,
};
use betting_platform::error::BettingPlatformError;

fn data(id: &str, title: &str, description: &str, yes: u64, no: u64, volume: u64, liquidity: u64) -> PolymarketMarketData {
    PolymarketMarketData {
        id: id.to_string(),
        title: title.to_string(),
        description: description.to_string(),
        outcomes: vec!["Yes".to_string(), "No".to_string()],
        yes_price: yes,
        no_price: no,
        volume_24h: volume,
        liquidity,
        resolved: false,
        resolution: None,
        disputed: false,
        dispute_reason: None,
    }
}

#[test]
fn test_polymarket_normalization() {
    let mut normalizer = DataNormalizer::new(1_000_000);
    let polymarket_data = data(
        "test-123",
        "Will Bitcoin reach $100k by end of 2024?",
        "This market resolves to YES if Bitcoin...",
        6500,
        3500,
        1_000_000_000_000,
        500_000_000_000,
    );
    let normalized = normalizer.normalize_polymarket(&polymarket_data, 1_000_000).unwrap();
    assert_eq!(normalized.source, DataSource::Polymarket);
    assert_eq!(normalized.external_id, "test-123");
    assert_eq!(normalized.outcomes.len(), 2);
    assert_eq!(normalized.outcomes[0].probability, 6500);
    assert_eq!(normalized.outcomes[1].probability, 3500);
    assert_eq!(normalized.metadata.category, "Crypto");
}

#[test]
fn normalized_fields() {
    let mut normalizer = DataNormalizer::new(0);
    let d = data("m", "Will Bitcoin reach $100k by end of 2024?", "d", 6500, 3500, 1_000_000_000_000, 500_000_000_000);
    let n = normalizer.normalize_polymarket(&d, 100_000).unwrap();
    assert_eq!(n.outcomes[0].price, 650_000);
    assert_eq!(n.prices.mid, 500_000);
    assert_eq!(n.prices.bid, 495_000);
    assert_eq!(n.prices.high_24h, 510_000);
    assert_eq!(n.volume.buy_24h, 450_000_000_000);
    assert_eq!(n.volume.trades_24h, 10_000);
    assert_eq!(n.status, MarketStatus::Active);
    assert_eq!(n.metadata.tags, vec!["bitcoin".to_string(), "reach".to_string(), "$100k".to_string(), "2024?".to_string()]);
    assert_eq!(n.metadata.create_time, 100_000 - 86400);
    assert_eq!(n.version, NORMALIZATION_VERSION);
    assert_eq!(normalizer.total_processed, 1);
    assert_eq!(normalizer.last_update, 100_000);
    // The id depends on the external id.
    let other = normalizer.normalize_polymarket(&data("n", "x y", "d", 5000, 5000, 0, 20_000_000_000), 100_000).unwrap();
    assert_ne!(n.market_id, other.market_id);
}

#[test]
fn test_validation_rules() {
    let normalizer = DataNormalizer::new(0);
    let mut d = data("test", "Test Market", "Description", 7000, 2000, 1_000_000_000_000, 100_000_000_000);
    let result = normalizer.validate_polymarket_data(&d);
    assert!(result.is_err());
    d.no_price = 3000;
    let result = normalizer.validate_polymarket_data(&d);
    assert!(result.is_ok());
}

#[test]
fn validation_errors_in_order() {
    let normalizer = DataNormalizer::new(0);
    let d = data("t", "T", "D", 5000, 5000, 0, 1);
    assert_eq!(normalizer.validate_polymarket_data(&d), Err(BettingPlatformError::InsufficientLiquidity));
    let mut d = data("t", "T", "", 5000, 5000, 0, 20_000_000_000);
    assert_eq!(normalizer.validate_polymarket_data(&d), Err(BettingPlatformError::MissingDescription));
    d.title = "x".repeat(201);
    assert_eq!(normalizer.validate_polymarket_data(&d), Err(BettingPlatformError::TitleTooLong));
    d.outcomes = vec!["o".to_string(); 11];
    assert_eq!(normalizer.validate_polymarket_data(&d), Err(BettingPlatformError::TooManyOutcomes));
}

#[test]
fn test_batch_normalization() {
    let mut normalizer = DataNormalizer::new(0);
    let markets = vec![
        data("market1", "Election Market", "Will candidate X win?", 5500, 4500, 2_000_000_000_000, 1_000_000_000_000),
        data("market2", "Sports Game Outcome", "Will team Y win?", 3000, 7000, 500_000_000_000, 200_000_000_000),
    ];
    let normalized = normalizer.batch_normalize(markets, 0).unwrap();
    assert_eq!(normalized.len(), 2);
    assert_eq!(normalized[0].metadata.category, "Politics");
    assert_eq!(normalized[1].metadata.category, "Sports");
}

#[test]
fn batch_counts_errors() {
    let mut normalizer = DataNormalizer::new(0);
    let markets = vec![data("a", "A", "D", 5000, 5000, 0, 1), data("b", "B", "D", 5000, 5000, 0, 20_000_000_000)];
    let normalized = normalizer.batch_normalize(markets, 0).unwrap();
    assert_eq!(normalized.len(), 1);
    assert_eq!(normalizer.total_errors, 1);
    assert_eq!(normalizer.total_processed, 1);
}

#[test]
fn confidence_and_transforms() {
    let volume = NormalizedVolume {
        total_24h: 1_000_000_000_000,
        buy_24h: 0,
        sell_24h: 0,
        trades_24h: 10_000,
        unique_traders: 1_000,
    };
    assert_eq!(calculate_confidence(&volume, 500_000_000_000), 8000);
    let mut normalizer = DataNormalizer::new(0);
    let d = data("m", "Stock market", "d", 5000, 5000, 50_000_000_000, 10_000_000_000);
    let n = normalizer.normalize_polymarket(&d, 7).unwrap();
    assert_eq!(n.metadata.category, "Finance");
    let feed = DataTransformer::to_price_feed(&n);
    assert_eq!(feed.price, 500_000);
    assert_eq!(feed.confidence, 2100);
    let event = DataTransformer::to_analytics_event(&n);
    assert_eq!(event.volume_24h, 50_000_000_000);
    assert_eq!(event.timestamp, 7);
}

#[test]
fn test_data_transformer() {
    let normalized = NormalizedMarketData {
        market_id: [1u8; 32],
        source: DataSource::Polymarket,
        external_id: "test".to_string(),
        title: "Test Market".to_string(),
        description: "Description".to_string(),
        outcomes: vec![
            NormalizedOutcome {
                index: 0,
                name: "Yes".to_string(),
                price: 650_000,
                probability: 6500,
                volume: 500_000_000_000,
            },
            NormalizedOutcome {
                index: 1,
                name: "No".to_string(),
                price: 350_000,
                probability: 3500,
                volume: 500_000_000_000,
            },
        ],
        prices: NormalizedPrices {
            bid: 640_000,
            ask: 660_000,
            mid: 650_000,
            last: 650_000,
            change_24h: 100,
            high_24h: 700_000,
            low_24h: 600_000,
        },
        volume: NormalizedVolume {
            total_24h: 1_000_000_000_000,
            buy_24h: 450_000_000_000,
            sell_24h: 550_000_000_000,
            trades_24h: 10_000,
            unique_traders: 1_000,
        },
        liquidity: 500_000_000_000,
        status: MarketStatus::Active,
        metadata: MarketMetadata {
            category: "Test".to_string(),
            tags: vec!["test".to_string()],
            resolution_time: None,
            create_time: 0,
            update_time: 0,
            dispute_info: None,
        },
        timestamp: 0,
        version: NORMALIZATION_VERSION,
    };

    let internal = DataTransformer::to_internal_market(&normalized);
    // 6500 as a 64.64 fixed-point number.
    assert_eq!(internal.probability, 6500u128 << 64);
    assert_eq!(internal.yes_price, 650_000);
    assert_eq!(internal.volume_7d, 7_000_000_000_000);

    let price_feed = DataTransformer::to_price_feed(&normalized);
    assert_eq!(price_feed.price, 650_000);
    assert!(price_feed.confidence > 0);

    let analytics = DataTransformer::to_analytics_event(&normalized);
    assert_eq!(analytics.volume_24h, 1_000_000_000_000);
    assert_eq!(analytics.trades_24h, 10_000);
}

#[test]
fn normalizer_stats_report_counters() {
    let mut normalizer = DataNormalizer::new(77);
    normalizer.total_processed = 40;
    normalizer.total_errors = 3;
    let stats = normalizer.get_stats();
    assert_eq!(stats.total_processed, 40);
    assert_eq!(stats.total_errors, 3);
    assert_eq!(stats.last_update, 77);
    assert_eq!(stats.sources_configured, 3);
}
