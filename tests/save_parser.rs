use fleet_desk::save_parser::{parse_decimal, parse_save, scrape, SaveField};

#[test]
fn parses_sample_save() {
    let r = parse_save("level: 7\nskill_points[0]: 4\nskill_points[1]: 2\ncity_discovered[0]: berlin\n");
    assert_eq!(r.level, 7);
    assert_eq!(r.skills, vec!["4", "2"]);
    assert_eq!(r.discovered_cities, vec!["berlin"]);
    assert!(r.owned_trailers.is_empty());
}

#[test]
fn missing_level_defaults_to_one() {
    let r = parse_save("skill_points[0]: 4\ncity_discovered[0]: paris\n");
    assert_eq!(r.level, 1);
}

#[test]
fn empty_text_gives_defaults() {
    let r = parse_save("");
    assert_eq!(r.level, 1);
    assert!(r.skills.is_empty() && r.discovered_cities.is_empty() && r.owned_trailers.is_empty());
}

#[test]
fn overflowing_level_defaults_to_one() {
    assert_eq!(parse_save("level: 4294967296\n").level, 1);
    assert_eq!(parse_save("level: 99999999999\n").level, 1);
    assert_eq!(parse_save("level: 4294967295\n").level, 4294967295);
}

#[test]
fn first_level_line_alone_decides() {
    assert_eq!(parse_save("level: 3\nlevel: 9\n").level, 3);
    assert_eq!(parse_save("level: x\nlevel: 9\n").level, 1);
}

#[test]
fn unparsable_level_defaults_to_one() {
    assert_eq!(parse_save("level: 7x\n").level, 1);
    assert_eq!(parse_save("level: +7\n").level, 1);
    assert_eq!(parse_save("level:\n7\n").level, 1);
}

#[test]
fn level_zero_falls_back_to_one() {
    assert_eq!(parse_save("level: 0\n").level, 1);
}

#[test]
fn indented_and_crlf_lines() {
    let r = parse_save(" level: 23\r\n\tskill_points[0]:\t5 \r\n  owned_trailer[0]: _nameless.2a\r\n");
    assert_eq!(r.level, 23);
    assert_eq!(r.skills, vec!["5"]);
    assert_eq!(r.owned_trailers, vec!["_nameless.2a"]);
}

#[test]
fn other_keys_are_not_the_level() {
    assert_eq!(parse_save("experience_level: 44\n").level, 1);
    assert_eq!(parse_save("experience_level: 44\nlevel: 2\n").level, 2);
}

#[test]
fn skill_values_kept_verbatim() {
    let r = parse_save("skill_points[0]: 4x\nskill_points[1]: abc\nskill_points[2]: 1 2\n");
    assert_eq!(r.skills, vec!["4x", "abc", "1 2"]);
}

#[test]
fn invalid_ids_are_skipped() {
    let r = parse_save(
        "city_discovered[0]: Berlin\ncity_discovered[1]: wien\ncity_discovered[2]: berLin\ncity_discovered[3]:\nowned_trailer[0]: _nameless.1\nowned_trailer[1]: a-b\n",
    );
    assert_eq!(r.discovered_cities, vec!["wien"]);
    assert_eq!(r.owned_trailers, vec!["_nameless.1"]);
}

#[test]
fn malformed_keys_are_ignored() {
    let r = parse_save("skill_points[]: 3\nskill_points[x]: 3\nskill_points[1] : 4\nskill_points 5\ncity_discovered: rome\n");
    assert!(r.skills.is_empty());
    assert!(r.discovered_cities.is_empty());
}

#[test]
fn duplicates_and_gaps_are_kept() {
    let r = parse_save("skill_points[3]: 1\nskill_points[3]: 1\nskill_points[0]: 6\n");
    assert_eq!(r.skills, vec!["1", "1", "6"]);
}

#[test]
fn keys_in_any_order() {
    let r = parse_save("owned_trailer[0]: t.1\nskill_points[0]: 5\nlevel: 12\ncity_discovered[0]: oslo");
    assert_eq!(r.level, 12);
    assert_eq!(r.skills, vec!["5"]);
    assert_eq!(r.owned_trailers, vec!["t.1"]);
    assert_eq!(r.discovered_cities, vec!["oslo"]);
}

#[test]
fn unicode_whitespace_around_values() {
    let r = parse_save("city_discovered[0]:\u{a0}rome\u{2003}\n");
    assert_eq!(r.discovered_cities, vec!["rome"]);
}

#[test]
fn scrape_by_field() {
    let t: Vec<char> = "  skill_points[10]:\t8 b\nlevel: 3".chars().collect();
    assert_eq!(scrape(&t, SaveField::SkillPoints), vec!["8 b"]);
    assert_eq!(scrape(&t, SaveField::Level), vec!["3"]);
    assert!(scrape(&t, SaveField::OwnedTrailer).is_empty());
}

#[test]
fn parse_decimal_values() {
    let d: Vec<char> = "0042".chars().collect();
    assert_eq!(parse_decimal(&d), Some(42));
    let d: Vec<char> = "4294967296".chars().collect();
    assert_eq!(parse_decimal(&d), None);
}
