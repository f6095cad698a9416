use route53_export::model::ZoneSummary;
use route53_export::select::ZoneChoice;
use route53_export::select::resolve_choice;
use route53_export::select::selection_options;
use route53_export::select::zones_for_choice;

fn zone(id: &str, name: &str) -> ZoneSummary {
    ZoneSummary { id: id.to_string(), name: name.to_string() }
}

#[test]
fn options_empty_zone_list() {
    let opts = selection_options(&vec![]);
    assert_eq!(opts.len(), 1);
    assert_eq!(opts[0], "All");
}

#[test]
fn options_offer_all_then_each_zone_in_order() {
    let zones = vec![
        zone("Z3", "zzz.example."),
        zone("Z1", "aaa.example."),
        zone("Z2", "mmm.example."),
    ];
    let opts = selection_options(&zones);
    assert_eq!(opts.len(), 4);
    assert_eq!(opts[0], "All");
    assert_eq!(opts[1], "zzz.example.");
    assert_eq!(opts[2], "aaa.example.");
    assert_eq!(opts[3], "mmm.example.");
}

#[test]
fn resolve_zero_is_the_all_sentinel() {
    assert!(matches!(resolve_choice(5, 0), Some(ZoneChoice::All)));
    assert!(matches!(resolve_choice(0, 0), Some(ZoneChoice::All)));
}

#[test]
fn resolve_positive_picks_the_zone_index() {
    assert!(matches!(resolve_choice(3, 1), Some(ZoneChoice::One(0))));
    assert!(matches!(resolve_choice(3, 3), Some(ZoneChoice::One(2))));
}

#[test]
fn resolve_out_of_range_is_none() {
    assert!(resolve_choice(3, 4).is_none());
    assert!(resolve_choice(0, 1).is_none());
}

#[test]
fn all_on_empty_list_selects_nothing() {
    let selected = zones_for_choice(vec![], &ZoneChoice::All);
    assert_eq!(selected.len(), 0);
}

#[test]
fn all_keeps_every_zone_in_order() {
    let zones = vec![zone("Z1", "one."), zone("Z2", "two.")];
    let selected = zones_for_choice(zones, &ZoneChoice::All);
    assert_eq!(selected.len(), 2);
    assert_eq!(selected[0].id, "Z1");
    assert_eq!(selected[1].id, "Z2");
}

#[test]
fn one_keeps_exactly_the_picked_zone() {
    let zones = vec![zone("Z1", "one."), zone("Z2", "two."), zone("Z3", "three.")];
    let selected = zones_for_choice(zones, &ZoneChoice::One(1));
    assert_eq!(selected.len(), 1);
    assert_eq!(selected[0].id, "Z2");
    assert_eq!(selected[0].name, "two.");
}
