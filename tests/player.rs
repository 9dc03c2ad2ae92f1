use fleet_desk::name_codec::describe_profile;
use fleet_desk::player::{
    assemble, locate_save, resolve_player_state, save_format_ok, save_slot_dirs, PlayerState,
    NO_SAVE_MESSAGE, SAVE_FORMAT_SETTING,
};
use fleet_desk::save_parser::parse_save;

const SAMPLE: &str = "level: 7\nskill_points[0]: 4\nskill_points[1]: 2\ncity_discovered[0]: berlin\n";

#[test]
fn slot_dirs_in_priority_order() {
    assert_eq!(save_slot_dirs(), vec!["quick", "autosave", "autosave_job"]);
}

#[test]
fn locates_only_third_slot() {
    let slots = vec![None, None, Some("job save".to_string())];
    assert_eq!(locate_save(&slots), Some("job save".to_string()));
}

#[test]
fn locates_first_of_several() {
    let slots = vec![None, Some("auto".to_string()), Some("job".to_string())];
    assert_eq!(locate_save(&slots), Some("auto".to_string()));
}

#[test]
fn no_slot_is_not_found() {
    let slots: Vec<Option<String>> = vec![None, None, None];
    assert_eq!(locate_save(&slots), None);
    match resolve_player_state(&slots, &None) {
        Err(e) => assert_eq!(e, NO_SAVE_MESSAGE),
        Ok(_) => panic!("expected the no-save error"),
    }
}

#[test]
fn format_setting_detected() {
    assert!(save_format_ok("uset g_lang \"en\"\nuset g_save_format \"2\"\n"));
    assert!(!save_format_ok("uset g_save_format \"0\"\n"));
    assert!(!save_format_ok(""));
    assert_eq!(SAVE_FORMAT_SETTING, "uset g_save_format \"2\"");
}

#[test]
fn assemble_keeps_fields() {
    let p = assemble(parse_save(SAMPLE), true);
    assert_eq!(p.level, 7);
    assert_eq!(p.skills, vec!["4", "2"]);
    assert!(p.save_format_ok);
}

#[test]
fn end_to_end_profile_and_state() {
    let profile = describe_profile("4d79447269766572", "profiles/4d79447269766572".to_string());
    assert_eq!(profile.name, "MyDriver");
    let slots = vec![None, Some(SAMPLE.to_string()), None];
    let cfg = Some("uset g_save_format \"2\"".to_string());
    let p = resolve_player_state(&slots, &cfg).ok().unwrap();
    assert_eq!(p.level, 7);
    assert_eq!(p.skills, vec!["4", "2"]);
    assert_eq!(p.discovered_cities, vec!["berlin"]);
    assert!(p.owned_trailers.is_empty());
    assert!(p.save_format_ok);
}

#[test]
fn unreadable_config_means_incompatible() {
    let slots = vec![Some(SAMPLE.to_string())];
    let p = resolve_player_state(&slots, &None).ok().unwrap();
    assert!(!p.save_format_ok);
}

fn same(a: &PlayerState, b: &PlayerState) -> bool {
    a.level == b.level
        && a.skills == b.skills
        && a.discovered_cities == b.discovered_cities
        && a.owned_trailers == b.owned_trailers
        && a.save_format_ok == b.save_format_ok
}

#[test]
fn reading_twice_gives_same_state() {
    let slots = vec![Some(SAMPLE.to_string()), None, None];
    let cfg = Some("x".to_string());
    let a = resolve_player_state(&slots, &cfg).ok().unwrap();
    let b = resolve_player_state(&slots, &cfg).ok().unwrap();
    assert!(same(&a, &b));
}
