use mnot::resolver::resolve_room;

fn named(list: &[&str]) -> Vec<Option<String>> {
    list.iter().map(|name| Some(name.to_string())).collect()
}

#[test]
fn finds_the_room_that_bears_the_name() {
    let joined = named(&["General", "Alerts", "Random"]);
    assert_eq!(resolve_room(&joined, &"Alerts".to_string()), Some(1));
}

#[test]
fn reports_a_missing_room() {
    let joined = named(&["General", "Alerts", "Random"]);
    assert_eq!(resolve_room(&joined, &"Missing".to_string()), None);
}

#[test]
fn finds_nothing_among_no_rooms() {
    assert_eq!(resolve_room(&Vec::new(), &"Alerts".to_string()), None);
}

#[test]
fn first_of_two_rooms_of_one_name_wins() {
    let joined = named(&["Alerts", "General", "Alerts"]);
    assert_eq!(resolve_room(&joined, &"Alerts".to_string()), Some(0));
    let joined = named(&["General", "Alerts", "Alerts"]);
    assert_eq!(resolve_room(&joined, &"Alerts".to_string()), Some(1));
}

#[test]
fn finds_the_last_room() {
    let joined = named(&["General", "Random", "Alerts"]);
    assert_eq!(resolve_room(&joined, &"Alerts".to_string()), Some(2));
}

#[test]
fn a_room_without_a_name_never_matches() {
    let joined = vec![None, Some("Alerts".to_string()), None];
    assert_eq!(resolve_room(&joined, &"Alerts".to_string()), Some(1));
    assert_eq!(resolve_room(&vec![None, None], &"Alerts".to_string()), None);
    assert_eq!(resolve_room(&vec![None], &String::new()), None);
}

#[test]
fn names_are_matched_exactly() {
    let joined = named(&["alerts", "Alerts ", " Alerts", "Alert", "Alertss", "ALERTS"]);
    assert_eq!(resolve_room(&joined, &"Alerts".to_string()), None);
}

#[test]
fn names_beyond_ascii_are_matched_by_character() {
    let joined = named(&["Cafe\u{301}", "Caf\u{e9}"]);
    assert_eq!(resolve_room(&joined, &"Caf\u{e9}".to_string()), Some(1));
}
