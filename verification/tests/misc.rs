use astrum_core::persistence::PersistenceManager;
use astrum_core::release::ReleaseInfo;
use astrum_core::strings::{choose_string, get_tier};
use astrum_core::unique_id::UniqueId;

#[test]
fn test_tier_boundaries() {
    assert_eq!(get_tier(0), None);
    assert_eq!(get_tier(7), None);
    assert_eq!(get_tier(8), Some(1));
    assert_eq!(get_tier(39), Some(1));
    assert_eq!(get_tier(40), Some(2));
    assert_eq!(get_tier(64), Some(2));
    assert_eq!(get_tier(65), Some(3));
    assert_eq!(get_tier(99), Some(3));
    assert_eq!(get_tier(100), Some(4));
    assert_eq!(get_tier(u32::MAX), Some(4));
}

#[test]
fn test_choose_string_respects_the_cooldown() {
    assert_eq!(choose_string(50, None, Some(849), 0, 0), None);
    assert!(choose_string(50, None, Some(850), 0, 0).is_some());
    assert!(choose_string(50, None, None, 0, 0).is_some());
}

#[test]
fn test_choose_string_rolls_against_the_tier_chance() {
    // tier 1 activates below 70 percent
    assert!(choose_string(10, None, None, 69, 0).is_some());
    assert_eq!(choose_string(10, None, None, 70, 0), None);
    // a tier that has not risen activates below 12 percent
    assert!(choose_string(10, Some(3), None, 11, 0).is_some());
    assert_eq!(choose_string(10, Some(3), None, 12, 0), None);
    // below the first tier nothing shows
    assert_eq!(choose_string(3, None, None, 0, 0), None);
}

#[test]
fn test_choose_string_picks_within_the_tier() {
    let (text, tier) = choose_string(10, None, None, 0, 0).unwrap();
    assert_eq!(tier, 1);
    assert_eq!(text, "wooOOOOOooosh");
    let (text, tier) = choose_string(10, None, None, 0, 5).unwrap();
    assert_eq!(tier, 1);
    assert_eq!(text, "Spinning into the void...");
    let (text, tier) = choose_string(120, None, None, 0, 6).unwrap();
    assert_eq!(tier, 4);
    assert_eq!(text, "This is your life now");
}

#[test]
fn test_unique_id_round_trip_and_freshness() {
    let a = UniqueId::from_string("abc".to_string());
    let b = UniqueId::from_string("abc".to_string());
    let c = UniqueId::from_string("abd".to_string());
    assert_eq!(a, b);
    assert_ne!(a, c);
    assert_eq!(a.as_str(), "abc");

    let fresh1 = UniqueId::new();
    let fresh2 = UniqueId::new();
    assert_eq!(fresh1.as_str().len(), 21);
    assert_ne!(fresh1, fresh2);
}

#[test]
fn test_base_dir_name() {
    let p = PersistenceManager::new();
    assert_eq!(p.base_dir_name(), "chat.astrum.astrum");
}

#[test]
fn test_release_info_clone() {
    let info = ReleaseInfo {
        version: "v1.2.3".to_string(),
        html_url: "https://example.invalid/releases/v1.2.3".to_string(),
    };
    let copy = info.clone();
    assert_eq!(copy.version, "v1.2.3");
    assert_eq!(copy.html_url, info.html_url);
}
