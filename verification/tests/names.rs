use riot_api::failure::UnknownName;
use riot_api::queue::queue_type::QueueType;
use riot_api::queue::ranked::RankedQueue;
use riot_api::ranked::division::RankedDivision;
use riot_api::ranked::tier::RankedTier;
use riot_api::text::{i64_to_decimal, str_eq, u64_to_decimal};

fn unknown(text: &str) -> UnknownName {
    UnknownName { text: String::from(text) }
}

#[test]
fn queue_type_names() {
    assert_eq!(QueueType::RANKED.to_string(), "RANKED");
    assert_eq!(QueueType::NORMAL.to_string(), "NORMAL");
    assert_eq!(QueueType::TOURNEY.to_string(), "TOURNEY");
    assert_eq!(QueueType::TUTORIAL.as_str(), "TUTORIAL");
}

#[test]
fn ranked_queue_names_round_trip() {
    let all = [RankedQueue::RankedSolo5x5, RankedQueue::RankedFlexSR, RankedQueue::RankedFlexTT];
    let names = ["RANKED_SOLO_5X5", "RANKED_FLEX_SR", "RANKED_FLEX_TT"];
    for (queue, name) in all.iter().zip(names.iter()) {
        assert_eq!(queue.to_string(), *name);
        assert_eq!(RankedQueue::parse(name), Ok(*queue));
    }
}

#[test]
fn ranked_queue_rejects_unknown_names() {
    assert_eq!(RankedQueue::parse("ranked_solo_5x5"), Err(unknown("ranked_solo_5x5")));
    assert_eq!(RankedQueue::parse("RANKED_FLEX"), Err(unknown("RANKED_FLEX")));
    assert_eq!(RankedQueue::parse(""), Err(unknown("")));
}

#[test]
fn division_names_round_trip() {
    let all = [RankedDivision::I, RankedDivision::II, RankedDivision::III, RankedDivision::IV];
    let names = ["I", "II", "III", "IV"];
    for (division, name) in all.iter().zip(names.iter()) {
        assert_eq!(division.to_string(), *name);
        assert_eq!(RankedDivision::parse(name), Ok(*division));
    }
    assert_eq!(RankedDivision::parse("V"), Err(unknown("V")));
    assert_eq!(RankedDivision::parse("i"), Err(unknown("i")));
    assert_eq!(RankedDivision::parse("IIII"), Err(unknown("IIII")));
}

#[test]
fn tier_names_round_trip() {
    let all = [
        RankedTier::IRON,
        RankedTier::BRONZE,
        RankedTier::SILVER,
        RankedTier::GOLD,
        RankedTier::PLATINUM,
        RankedTier::EMERALD,
        RankedTier::DIAMOND,
        RankedTier::MASTER,
        RankedTier::GRANDMASTER,
        RankedTier::CHALLENGER,
    ];
    let names = [
        "IRON", "BRONZE", "SILVER", "GOLD", "PLATINUM", "EMERALD", "DIAMOND", "MASTER",
        "GRANDMASTER", "CHALLENGER",
    ];
    for (tier, name) in all.iter().zip(names.iter()) {
        assert_eq!(tier.to_string(), *name);
        assert_eq!(RankedTier::parse(name), Ok(*tier));
    }
    assert_eq!(RankedTier::parse("WOOD"), Err(unknown("WOOD")));
    assert_eq!(RankedTier::parse("gold"), Err(unknown("gold")));
}

#[test]
fn decimal_rendering() {
    assert_eq!(u64_to_decimal(0), "0");
    assert_eq!(u64_to_decimal(7), "7");
    assert_eq!(u64_to_decimal(10), "10");
    assert_eq!(u64_to_decimal(1234567890), "1234567890");
    assert_eq!(u64_to_decimal(u64::MAX), "18446744073709551615");
    assert_eq!(i64_to_decimal(0), "0");
    assert_eq!(i64_to_decimal(-1), "-1");
    assert_eq!(i64_to_decimal(420), "420");
    assert_eq!(i64_to_decimal(i64::MAX), "9223372036854775807");
    assert_eq!(i64_to_decimal(i64::MIN), "-9223372036854775808");
}

#[test]
fn string_comparison() {
    assert!(str_eq("", ""));
    assert!(str_eq("kr", "kr"));
    assert!(!str_eq("kr", "kR"));
    assert!(!str_eq("kr", "kr1"));
    assert!(str_eq("h\u{e9}", "h\u{e9}"));
    assert!(!str_eq("h\u{e9}", "he"));
}
