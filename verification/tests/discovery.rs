use pc_monitor::flipper_manager::{
    filter_from_line, find_characteristic, get_flipper, name_matches, Advertised, DEFAULT_FILTER,
    FLIPPER_CHARACTERISTIC_UUID,
};

fn advertised(id: u64, name: Option<&str>) -> Advertised {
    Advertised { id, name: name.map(|n| n.to_string()) }
}

#[test]
fn name_that_holds_the_filter_matches() {
    assert!(name_matches("Flipper", "Flipper-AB12"));
    assert!(name_matches("AB12", "Flipper-AB12"));
    assert!(name_matches("PC Mon", "PC Monitor Abc"));
    assert!(name_matches("Flipper-AB12", "Flipper-AB12"));
}

#[test]
fn empty_filter_matches_every_name() {
    assert!(name_matches("", "Flipper-AB12"));
    assert!(name_matches("", ""));
}

#[test]
fn filter_observes_letter_case() {
    assert!(!name_matches("flipper", "Flipper-AB12"));
    assert!(!name_matches("FLIPPER", "Flipper-AB12"));
}

#[test]
fn name_without_the_filter_does_not_match() {
    assert!(!name_matches("Flipper", "Flip-per"));
    assert!(!name_matches("Flipper", ""));
    assert!(!name_matches("Flipper-AB12!", "Flipper-AB12"));
}

#[test]
fn filter_is_what_contains_says() {
    let names = ["", "Flipper", "Flipper-AB12", "PC Monitor", "pc mon", "Ünï"];
    let filters = ["", "F", "Flipper", "PC Mon", "Mon", "ï", "x"];
    for name in names {
        for filter in filters {
            assert_eq!(
                name_matches(filter, name),
                filter.is_empty() || name.contains(filter),
                "{:?} {:?}",
                filter,
                name
            );
        }
    }
}

#[test]
fn peripheral_is_chosen_by_identity_and_name() {
    let seen = vec![
        advertised(1, Some("Headset")),
        advertised(2, None),
        advertised(3, Some("PC Monitor")),
        advertised(4, Some("PC Monitor two")),
    ];
    assert_eq!(get_flipper(&seen, 3, "PC Mon"), Some(2));
    assert_eq!(get_flipper(&seen, 4, "PC Mon"), Some(3));
    assert_eq!(get_flipper(&seen, 1, "PC Mon"), None);
    assert_eq!(get_flipper(&seen, 2, "PC Mon"), None);
    assert_eq!(get_flipper(&seen, 9, "PC Mon"), None);
    assert_eq!(get_flipper(&Vec::new(), 1, "PC Mon"), None);
}

#[test]
fn first_entry_of_an_identity_that_matches_is_chosen() {
    let seen = vec![
        advertised(7, None),
        advertised(7, Some("other")),
        advertised(7, Some("PC Monitor")),
        advertised(7, Some("PC Monitor again")),
    ];
    assert_eq!(get_flipper(&seen, 7, "PC Mon"), Some(2));
    assert_eq!(get_flipper(&seen, 7, ""), Some(1));
}

#[test]
fn peripheral_without_a_name_passes_no_filter() {
    let seen = vec![advertised(2, None)];
    assert_eq!(get_flipper(&seen, 2, ""), None);
}

#[test]
fn characteristic_is_found_where_it_is_offered() {
    let other: u128 = 0x0000_2a00_0000_1000_8000_0080_5f9b_34fb;
    assert_eq!(find_characteristic(&vec![other, FLIPPER_CHARACTERISTIC_UUID], FLIPPER_CHARACTERISTIC_UUID), Some(1));
    assert_eq!(find_characteristic(&vec![FLIPPER_CHARACTERISTIC_UUID, FLIPPER_CHARACTERISTIC_UUID], FLIPPER_CHARACTERISTIC_UUID), Some(0));
    assert_eq!(find_characteristic(&vec![other], FLIPPER_CHARACTERISTIC_UUID), None);
    assert_eq!(find_characteristic(&Vec::new(), FLIPPER_CHARACTERISTIC_UUID), None);
}

#[test]
fn characteristic_identifier_is_the_documented_one() {
    assert_eq!(
        uuid::Uuid::from_u128(FLIPPER_CHARACTERISTIC_UUID).to_string(),
        "19ed82ae-ed21-4c9d-4145-228e62fe0000"
    );
}

#[test]
fn filter_is_the_entered_line_without_its_end() {
    assert_eq!(filter_from_line(Some("Flipper\n")), "Flipper");
    assert_eq!(filter_from_line(Some("Flipper\r\n")), "Flipper");
    assert_eq!(filter_from_line(Some("Flipper")), "Flipper");
    assert_eq!(filter_from_line(Some(" PC Mon \n\n")), " PC Mon ");
    assert_eq!(filter_from_line(Some("a\nb\n")), "a\nb");
    assert_eq!(filter_from_line(Some("Ünï\n")), "Ünï");
}

#[test]
fn empty_line_asks_for_the_empty_filter() {
    assert_eq!(filter_from_line(Some("\n")), "");
    assert_eq!(filter_from_line(Some("\r\n")), "");
    assert_eq!(filter_from_line(Some("")), "");
}

#[test]
fn no_line_keeps_the_default_filter() {
    assert_eq!(DEFAULT_FILTER, "PC Mon");
    assert_eq!(filter_from_line(None), "PC Mon");
}
