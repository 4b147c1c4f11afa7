use mix_mixer::devices::{
    best_device_index, enumerate_device_lists, find_device, find_device_optional,
    sort_names_by_lowercase, stable_device_query, suggest_default_queries,
};
use mix_mixer::error::Error;

fn names(list: &[&str]) -> Vec<String> {
    list.iter().map(|s| s.to_string()).collect()
}

#[test]
fn substring_match_is_case_insensitive() {
    assert!("Microphone (2- fifine Microphone)"
        .to_lowercase()
        .contains(&"fifine microphone".to_lowercase()));
    let list = names(&["Microphone (2- fifine Microphone)"]);
    assert_eq!(find_device_optional(&list, "fifine microphone"), Some(0));
    assert_eq!(best_device_index(&list, "fifine microphone"), 0);
}

#[test]
fn exact_name_beats_earlier_substring_match() {
    let list = names(&["CABLE Input (VB-Audio Virtual Cable)", "cable input"]);
    assert_eq!(find_device_optional(&list, "  CABLE INPUT "), Some(1));
}

#[test]
fn first_substring_match_wins() {
    let list = names(&["Speakers (Realtek)", "Headphones (fifine SC3)", "fifine SC3 Speakers"]);
    assert_eq!(find_device_optional(&list, "FIFINE sc3"), Some(1));
    assert_eq!(best_device_index(&list, "fifine sc3"), 1);
}

#[test]
fn blank_or_unknown_query_picks_nothing() {
    let list = names(&["Speakers"]);
    assert_eq!(find_device_optional(&list, "   "), None);
    assert_eq!(find_device_optional(&list, "missing"), None);
    assert_eq!(best_device_index(&list, "missing"), 0);
    assert_eq!(best_device_index(&[], "anything"), 0);
}

#[test]
fn find_device_reports_missing_device() {
    let list = names(&["Speakers"]);
    assert_eq!(find_device(&list, "speak", "output").unwrap(), 0);
    match find_device(&list, "CABLE", "output") {
        Err(Error::Device(msg)) => {
            assert_eq!(msg, "no output device matching 'CABLE' — run --list-devices")
        }
        _ => panic!("expected a device error"),
    }
}

#[test]
fn stable_queries_for_known_devices() {
    assert_eq!(stable_device_query("Microphone (2- FIFINE Microphone)"), "fifine Microphone");
    assert_eq!(stable_device_query("CABLE Input (VB-Audio Virtual Cable)"), "CABLE Input");
    assert_eq!(stable_device_query("Haut-parleurs (fifine SC3)"), "fifine SC3");
    assert_eq!(stable_device_query("  Speakers (Realtek)  "), "Speakers (Realtek)");
}

#[test]
fn names_sorted_by_lowercase_stably() {
    let sorted = sort_names_by_lowercase(names(&["b", "A", "a", "C", "B"]));
    assert_eq!(sorted, names(&["A", "a", "b", "B", "C"]));
    let lists = enumerate_device_lists(names(&["mic 2", "Mic 1"]), names(&["Zeta", "alpha"]));
    assert_eq!(lists.inputs, names(&["Mic 1", "mic 2"]));
    assert_eq!(lists.outputs, names(&["alpha", "Zeta"]));
}

#[test]
fn stable_query_is_a_fixed_point() {
    for name in [
        "Microphone (2- FIFINE Microphone)",
        "CABLE Input (VB-Audio Virtual Cable)",
        "Haut-parleurs (fifine SC3)",
        "  Speakers (Realtek)  ",
    ] {
        let once = stable_device_query(name);
        assert_eq!(stable_device_query(&once), once);
    }
}

#[test]
fn query_case_does_not_change_the_pick() {
    let list = names(&["Speakers (Realtek)", "CABLE Input (VB-Audio Virtual Cable)"]);
    for query in ["cable input", "CABLE INPUT", "Cable Input"] {
        assert_eq!(find_device_optional(&list, query), Some(1));
        assert_eq!(best_device_index(&list, query), 1);
    }
}

#[test]
fn first_run_queries() {
    let outputs = names(&["Speakers (Realtek)", "CABLE Input (VB-Audio Virtual Cable)"]);
    let (voice, cable, monitor) =
        suggest_default_queries("Microphone (2- fifine Microphone)", "Speakers (Realtek)", &outputs);
    assert_eq!(voice, "fifine Microphone");
    assert_eq!(cable, "CABLE Input");
    assert_eq!(monitor, "Speakers (Realtek)");
    let (_, cable, _) = suggest_default_queries("Mic", " Headphones ", &names(&["Headphones"]));
    assert_eq!(cable, "Headphones");
}
