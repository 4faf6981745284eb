use nexrad::model::meta::registry::{find_site, site_by_id, sites};
use std::collections::HashSet;

#[test]
fn site_lookup_finds_oklahoma_city() {
    let site = site_by_id("KTLX").unwrap();
    assert_eq!(site.city, "Oklahoma City");
    assert_eq!(site.state, "OK");
}

#[test]
fn site_lookup_ignores_case() {
    assert_eq!(site_by_id("ktlx"), site_by_id("KTLX"));
    assert_eq!(site_by_id("kTlX").unwrap().id, "KTLX");
    assert!(site_by_id("XXXX").is_none());
    assert!(site_by_id("").is_none());
}

#[test]
fn registry_ids_are_icao_codes() {
    let all = sites();
    assert_eq!(all.len(), 157);
    // State College (KCCX) is listed twice, with the same data.
    let ids: HashSet<&str> = all.iter().map(|s| s.id).collect();
    assert_eq!(ids.len(), all.len() - 1);
    let kccx: Vec<_> = all.iter().filter(|s| s.id == "KCCX").collect();
    assert_eq!(kccx.len(), 2);
    assert_eq!(kccx[0], kccx[1]);
    assert!(all.iter().all(|s| s.id.len() == 4 && s.id.chars().all(|c| c.is_ascii_uppercase())));
    assert!(all.iter().all(|s| s.state.len() == 2));
}

#[test]
fn registry_entry_becomes_site() {
    let entry = site_by_id("KTLX").unwrap();
    let site = entry.to_site();
    assert_eq!(site.identifier(), b"KTLX");
    assert_eq!(site.latitude_bits(), entry.latitude_bits);
    assert_eq!(site.longitude_bits(), entry.longitude_bits);
    assert_eq!(site.height_meters(), entry.elevation_meters);
    assert_eq!(site.tower_height_meters(), 0);
    assert!((f32::from_bits(entry.latitude_bits) - 35.3331).abs() < 0.001);
    assert!((f32::from_bits(entry.longitude_bits) - (-97.2778)).abs() < 0.001);
}

#[test]
fn registry_entry_summary() {
    let entry = site_by_id("KCXX").unwrap();
    assert_eq!(entry.to_summary_string(), "KCXX (Burlington, VT)");
}

#[test]
fn find_site_matches_exactly() {
    let all = sites();
    assert_eq!(find_site(&all, "KRIW").map(|s| s.city), Some("Riverton"));
    assert!(find_site(&all, "kriw").is_none());
}
