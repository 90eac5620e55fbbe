use up_utils::config::{AppConfig, MapConfig};
use up_utils::datetime::{elapsed_display_value, Epoch};
use up_utils::localtime::offset_difference;
use up_utils::timezone::DayOfWeek;

#[test]
fn map_config_defaults_to_no_provider() {
    assert!(matches!(MapConfig::default(), MapConfig::NoProvider));
    assert!(matches!(AppConfig::default().maps, MapConfig::NoProvider));
}

#[test]
fn provider_names() {
    assert_eq!(MapConfig::NoProvider.provider_name(), "none");
    assert_eq!(
        MapConfig::MapsCo { api_key: "k".to_string() }.provider_name(),
        "maps.co"
    );
}

#[test]
fn day_of_week_parses_exact_names() {
    assert_eq!(DayOfWeek::from_str("sunday"), Some(DayOfWeek::Sunday));
    assert_eq!(DayOfWeek::from_str("saturday"), Some(DayOfWeek::Saturday));
    assert_eq!(DayOfWeek::from_str("wednesday"), Some(DayOfWeek::Wednesday));
}

#[test]
fn day_of_week_parsing_ignores_case() {
    assert_eq!(DayOfWeek::from_str("Sunday"), Some(DayOfWeek::Sunday));
    assert_eq!(DayOfWeek::from_str("fRiDaY"), Some(DayOfWeek::Friday));
    assert_eq!(DayOfWeek::from_str("MONDAY"), Some(DayOfWeek::Monday));
}

#[test]
fn day_of_week_rejects_other_text() {
    assert_eq!(DayOfWeek::from_str("notaday"), None);
    assert_eq!(DayOfWeek::from_str(""), None);
    assert_eq!(DayOfWeek::from_str("sundays"), None);
}

#[test]
fn day_of_week_names() {
    assert_eq!(DayOfWeek::Sunday.name(), "Sunday");
    assert_eq!(DayOfWeek::Thursday.name(), "Thursday");
    assert_eq!(DayOfWeek::default(), DayOfWeek::Sunday);
}

#[test]
fn epoch_instants() {
    assert_eq!(Epoch::Unix.to_utc(), 0);
    assert_eq!(Epoch::TwitterSnowflake.to_utc(), 1288834974657000000);
    assert_eq!(Epoch::DiscordSnowflake.to_utc(), 1420070400000000000);
    assert_eq!(Epoch::Custom(42).to_utc(), 42);
}

#[test]
fn epoch_names() {
    assert_eq!(Epoch::parse_named("epoch"), Some(Epoch::Unix));
    assert_eq!(Epoch::parse_named("unix"), Some(Epoch::Unix));
    assert_eq!(Epoch::parse_named("twitter"), Some(Epoch::TwitterSnowflake));
    assert_eq!(Epoch::parse_named("discord"), Some(Epoch::DiscordSnowflake));
    assert_eq!(Epoch::parse_named("2021-01-01T00:00:00Z"), None);
    assert_eq!(Epoch::Unix.named_label().as_deref(), Some("unix"));
    assert_eq!(Epoch::Custom(7).named_label(), None);
}

#[test]
fn elapsed_values() {
    assert_eq!(elapsed_display_value(2_000_000_000, 0, false), Some(2));
    assert_eq!(elapsed_display_value(2_500_000_000, 0, true), Some(2500));
    assert_eq!(elapsed_display_value(0, 1, false), None);
    assert_eq!(elapsed_display_value(1_420_070_400_000_000_123, 1_420_070_400_000_000_000, true), Some(0));
}

#[test]
fn offset_differences() {
    assert_eq!(offset_difference(3600, 0), Some((1, 0)));
    assert_eq!(offset_difference(4500, 0), Some((1, 15)));
    assert_eq!(offset_difference(0, 5400), Some((-1, 30)));
    assert_eq!(offset_difference(7200, 7200), None);
}
