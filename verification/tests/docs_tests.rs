use encounter_store::docs::{encode_engravings, encode_misc, encode_stagger_stats};
use encounter_store::json::append_json_string;
use encounter_store::models::{DamageStats, IdentityStats, SkillStats};
use encounter_store::sqlite::compress_doc;
use encounter_store::stagger::StaggerStats;
use std::io::Read;

#[test]
fn json_strings_escape_specials() {
    let mut out = String::new();
    append_json_string(&mut out, "a\"b\\c\nd\te\u{1}");
    assert_eq!(out, "\"a\\\"b\\\\c\\nd\\te\\u0001\"");
}

#[test]
fn misc_document_layout() {
    let doc = encode_misc(
        Some(true),
        &vec![vec!["a".to_string()], vec!["b".to_string(), "c".to_string()]],
        &Some("EUC".to_string()),
        &"1.0".to_string(),
        false,
        7,
        true,
    );
    assert_eq!(
        doc,
        "{\"raidClear\":true,\"partyInfo\":{\"0\":[\"a\"],\"1\":[\"b\",\"c\"]},\"region\":\"EUC\",\"version\":\"1.0\",\"rdpsValid\":false,\"rdpsMessage\":\"invalid_stats\",\"ntpFightStart\":7,\"manualSave\":true}"
    );
}

#[test]
fn misc_document_absent_fields_are_null() {
    let doc = encode_misc(None, &Vec::new(), &None, &"2".to_string(), true, 0, false);
    assert_eq!(
        doc,
        "{\"raidClear\":null,\"partyInfo\":null,\"region\":null,\"version\":\"2\",\"rdpsValid\":true,\"rdpsMessage\":null,\"ntpFightStart\":0,\"manualSave\":false}"
    );
}

#[test]
fn stagger_document_two_decimals() {
    let stats = StaggerStats {
        average_hundredths: 1000,
        staggers_per_min_hundredths: 600,
        log: vec![(1, 500), (2, 1000)],
    };
    assert_eq!(
        encode_stagger_stats(&Some(stats)),
        "{\"average\":10.00,\"staggersPerMin\":6.00,\"log\":[[1,5.00],[2,10.00]]}"
    );
    assert_eq!(encode_stagger_stats(&None), "null");
}

#[test]
fn engraving_document_lists_or_null() {
    assert_eq!(
        encode_engravings(&Some(vec!["Mayhem".to_string()])),
        "[\"Mayhem\"]"
    );
    assert_eq!(encode_engravings(&None), "null");
}

#[test]
fn skill_stats_document_holds_identity() {
    let stats = SkillStats {
        casts: 3,
        hits: 5,
        crits: 1,
        identity_stats: Some(IdentityStats {
            log: vec![(0, 1234)],
            average_hundredths: 42,
            card_draws: Some(vec![5, 7]),
        }),
    };
    let doc = encounter_store::docs::encode_skill_stats(&stats);
    assert_eq!(
        doc,
        "{\"casts\":3,\"hits\":5,\"crits\":1,\"identityStats\":{\"log\":[[0,12.34]],\"average\":0.42,\"cardDraws\":[5,7]}}"
    );
}

#[test]
fn damage_stats_document_layout() {
    let stats = DamageStats {
        damage_dealt: 100,
        damage_taken: 7,
        dps: 2,
        dps_rolling_10s_avg: vec![1, 2, 3],
    };
    assert_eq!(
        encounter_store::docs::encode_damage_stats(&stats),
        "{\"damageDealt\":100,\"damageTaken\":7,\"dps\":2,\"dpsRolling10sAvg\":[1,2,3]}"
    );
}

#[test]
fn compressed_document_decompresses_to_itself() {
    let doc = "{\"damageDealt\":100}";
    let compressed = compress_doc(doc);
    assert_ne!(compressed, doc.as_bytes());
    let mut decoder = flate2::read::GzDecoder::new(compressed.as_slice());
    let mut restored = String::new();
    decoder.read_to_string(&mut restored).unwrap();
    assert_eq!(restored, doc);
}
