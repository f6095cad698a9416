use vstd::prelude::*;

use crate::model::ZoneSummary;

verus! {

/// The operator's resolved choice: every zone, or the zone at one index of
/// the provider-ordered zone list.
pub enum ZoneChoice {
    All,
    One(usize),
}

/// Build the prompt options for a zone list: the "All" sentinel first, then
/// one label per zone, the zone's name, in the provider's order.
pub fn selection_options(zones: &Vec<ZoneSummary>) -> (r: Vec<String>)
    ensures
        r@.len() == zones@.len() + 1,
        r@[0]@ == "All"@,
        forall|i: int| 0 <= i < zones@.len() ==> (#[trigger] r@[i + 1])@ == zones@[i].name@,
{
    let mut options: Vec<String> = Vec::new();
    options.push("All".to_owned());
    let mut i: usize = 0;
    let len = zones.len();
    while i < len
        invariant
            i <= len,
            len == zones@.len(),
            options@.len() == i + 1,
            options@[0]@ == "All"@,
            forall|j: int| 0 <= j < i ==> (#[trigger] options@[j + 1])@ == zones@[j].name@,
        decreases len - i,
    {
        options.push(zones[i].name.clone());
        i = i + 1;
    }
    options
}

/// Interpret the index the operator picked among the prompt options:
/// index 0 is the "All" sentinel, index i + 1 is the zone at index i.
/// An index past the options is no valid pick and yields `None`.
pub fn resolve_choice(zone_count: usize, picked: usize) -> (r: Option<ZoneChoice>)
    ensures
        picked == 0 ==> r == Some(ZoneChoice::All),
        1 <= picked <= zone_count ==> r == Some(ZoneChoice::One((picked - 1) as usize)),
        picked > zone_count ==> r is None,
{
    if picked == 0 {
        Some(ZoneChoice::All)
    } else if picked <= zone_count {
        Some(ZoneChoice::One(picked - 1))
    } else {
        None
    }
}

/// Resolve a choice against the zone list: "All" keeps every zone in its
/// original order — for an empty list, that is the empty selection — and a
/// single pick keeps exactly that zone.
pub fn zones_for_choice(zones: Vec<ZoneSummary>, choice: &ZoneChoice) -> (r: Vec<ZoneSummary>)
    requires
        choice matches ZoneChoice::One(i) ==> i < zones@.len(),
    ensures
        choice is All ==> r == zones,
        choice matches ZoneChoice::One(i) ==> r@.len() == 1 && r@[0] == zones@[i as int],
{
    match choice {
        ZoneChoice::All => zones,
        ZoneChoice::One(i) => {
            let mut rest = zones;
            let picked = rest.remove(*i);
            let mut r: Vec<ZoneSummary> = Vec::new();
            r.push(picked);
            r
        },
    }
}

} // verus!
