use trade_metrics::trades::Status;
use trade_metrics::models::{get_alias, same_text, AssetType, PriceEffect, Side, StrategyType};

#[test]
fn futures_symbol_alias_is_its_root() {
    assert_eq!(get_alias("/ESZ4"), "/ES");
    assert_eq!(get_alias("/MES"), "/ME");
}

#[test]
fn futures_alias_counts_bytes() {
    assert_eq!(get_alias("/\u{e9}1"), "/\u{e9}");
    assert_eq!(get_alias("/\u{e9}"), "/\u{e9}");
}

#[test]
fn plain_symbol_alias_is_the_symbol() {
    assert_eq!(get_alias("AAPL"), "AAPL");
    assert_eq!(get_alias(""), "");
}

#[test]
fn asset_types_by_instrument_name() {
    assert_eq!(AssetType::get_asset_type("Equity"), AssetType::Equity);
    assert_eq!(AssetType::get_asset_type("Future"), AssetType::Future);
    assert_eq!(AssetType::get_asset_type("Equity Option"), AssetType::EquityOption);
    assert_eq!(AssetType::get_asset_type("Future Option"), AssetType::FutureOption);
}

#[test]
fn asset_type_codes_round_trip() {
    for a in [AssetType::Equity, AssetType::EquityOption, AssetType::Future, AssetType::FutureOption] {
        assert_eq!(AssetType::from_code(a.code()), Some(a));
    }
    assert_eq!(AssetType::Future.code(), 3);
    assert_eq!(AssetType::from_code(0), None);
    assert_eq!(AssetType::from_code(5), None);
    assert_eq!(AssetType::EquityOption.name(), "EquityOption");
}

#[test]
fn price_effect_names_and_codes() {
    assert_eq!(PriceEffect::from_name("Credit"), PriceEffect::Credit);
    assert_eq!(PriceEffect::from_name("Short"), PriceEffect::Credit);
    assert_eq!(PriceEffect::from_name("Debit"), PriceEffect::Debit);
    assert_eq!(PriceEffect::from_name("Long"), PriceEffect::Debit);
    assert_eq!(PriceEffect::Credit.code(), 1);
    assert_eq!(PriceEffect::Debit.code(), 2);
    assert_eq!(PriceEffect::Debit.name(), "Debit");
}

#[test]
fn side_codes() {
    assert_eq!(Side::from_code(1), Side::Call);
    assert_eq!(Side::from_code(2), Side::Put);
    assert_eq!(Side::from_code(7), Side::Neutral);
}

#[test]
fn strategy_type_names() {
    assert_eq!(StrategyType::from_name("IronCondor"), StrategyType::IronCondor);
    assert_eq!(StrategyType::from_name("CalendarSpread"), StrategyType::CalendarSpread);
    assert_eq!(StrategyType::from_name("Butterfly"), StrategyType::Other);
    for t in [
        StrategyType::SingleLeg,
        StrategyType::CreditSpread,
        StrategyType::IronCondor,
        StrategyType::CalendarSpread,
        StrategyType::Other,
    ] {
        assert_eq!(StrategyType::from_name(t.name()), t);
    }
}

#[test]
fn text_comparison() {
    assert!(same_text("abc", "abc"));
    assert!(!same_text("abc", "abd"));
    assert!(!same_text("abc", "ab"));
}

#[test]
fn status_codes() {
    assert_eq!(Status::Open.code(), 1);
    assert_eq!(Status::Closed.code(), 2);
    assert_eq!(Status::from_code(1), Status::Open);
    assert_eq!(Status::from_code(2), Status::Closed);
    assert_eq!(Status::from_code(0), Status::Closed);
}
