use encounter_store::models::SearchFilter;
use encounter_store::players::{join_players, parse_players, parse_i32, split_string};
use encounter_store::query::{build_query, quote_search, sort_column_of};

#[test]
fn player_string_round_trips() {
    let players = vec![
        (102u32, "alice".to_string()),
        (103u32, "bob".to_string()),
        (204u32, "carol d".to_string()),
    ];
    let joined = join_players(&players);
    assert_eq!(joined, "102:alice,103:bob,204:carol d");
    let (classes, names) = parse_players(&joined);
    assert_eq!(classes, vec![102, 103, 204]);
    assert_eq!(
        names,
        vec!["alice".to_string(), "bob".to_string(), "carol d".to_string()]
    );
}

#[test]
fn empty_player_string_yields_one_sentinel() {
    let (classes, names) = parse_players("");
    assert_eq!(classes, vec![101]);
    assert_eq!(names, vec!["Unknown".to_string()]);
}

#[test]
fn unparseable_class_id_keeps_name() {
    let (classes, names) = parse_players("9999999999:alice");
    assert_eq!(classes, vec![101]);
    assert_eq!(names, vec!["alice".to_string()]);
}

#[test]
fn i32_parsing_matches_std() {
    for text in ["0", "42", "-42", "+7", "2147483647", "-2147483648", "2147483648",
        "-2147483649", "", "-", "+", "1x", "x1", "12345678901234567890123"] {
        assert_eq!(parse_i32(text), text.parse::<i32>().ok(), "case {:?}", text);
    }
}

#[test]
fn split_keeps_empty_pieces() {
    assert_eq!(split_string("a,b,,c", ','), vec!["a", "b", "", "c"]);
    assert_eq!(split_string("", ','), vec![""]);
    assert_eq!(split_string(",", ','), vec!["", ""]);
}

#[test]
fn search_tokens_are_quoted_phrases() {
    assert_eq!(quote_search("hello  wo\"rld"), "\"hello\" \"world\"");
    assert_eq!(quote_search("  "), "");
    assert_eq!(quote_search("one"), "\"one\"");
}

#[test]
fn sort_direction_outside_the_pair_is_rejected() {
    let mut filter = SearchFilter {
        sort: "fight_start".to_string(),
        ..Default::default()
    };
    filter.order = 7;
    assert!(build_query("", &filter, 1, 10).is_err());
    filter.order = -1;
    assert!(build_query("", &filter, 1, 10).is_err());
    filter.order = 0;
    assert!(build_query("", &filter, 1, 10).is_ok());
    filter.order = 1;
    assert!(build_query("", &filter, 1, 10).is_ok());
}

#[test]
fn sort_columns_come_from_the_allow_list() {
    assert!(sort_column_of("fight_start").is_some());
    assert!(sort_column_of("my_dps").is_some());
    assert!(sort_column_of("players; DROP TABLE encounter").is_none());
    assert!(sort_column_of("fight_start ").is_none());
}

#[test]
fn built_statements_hold_only_placeholders() {
    let mut filter = SearchFilter {
        sort: "fight_start".to_string(),
        ..Default::default()
    };
    filter.bosses = vec!["Narok the Butcher".to_string(), "Valtan".to_string()];
    filter.cleared = true;
    filter.difficulty = "Hard".to_string();
    let plan = build_query("Narok", &filter, 2, 10).unwrap();
    assert_eq!(
        plan.list_sql,
        "SELECT e.id, e.fight_start, e.current_boss, e.duration, e.difficulty, e.favorite, e.cleared, e.local_player, e.my_dps, e.players FROM encounter_preview e JOIN encounter_search(?) ON encounter_search.rowid = e.id WHERE e.duration > ? AND e.current_boss IN (?,?) AND cleared = 1 AND difficulty = ? ORDER BY e.fight_start DESC LIMIT ? OFFSET ?"
    );
    assert_eq!(
        plan.count_sql,
        "SELECT COUNT(*) FROM encounter_preview e JOIN encounter_search(?) ON encounter_search.rowid = e.id WHERE e.duration > ? AND e.current_boss IN (?,?) AND cleared = 1 AND difficulty = ?"
    );
    assert_eq!(
        plan.count_params,
        vec!["\"Narok\"", "0", "Narok the Butcher", "Valtan", "Hard"]
    );
    assert_eq!(
        plan.list_params,
        vec!["\"Narok\"", "0", "Narok the Butcher", "Valtan", "Hard", "10", "10"]
    );
}

#[test]
fn short_searches_skip_the_index() {
    let filter = SearchFilter {
        sort: "duration".to_string(),
        order: 1,
        ..Default::default()
    };
    let plan = build_query("ab", &filter, 1, 25).unwrap();
    assert_eq!(
        plan.list_sql,
        "SELECT e.id, e.fight_start, e.current_boss, e.duration, e.difficulty, e.favorite, e.cleared, e.local_player, e.my_dps, e.players FROM encounter_preview e WHERE e.duration > ? ORDER BY e.duration ASC LIMIT ? OFFSET ?"
    );
    assert_eq!(plan.list_params, vec!["0", "25", "0"]);
}
