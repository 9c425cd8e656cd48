use seeder_client::json::{JsonField, JsonObject};
use seeder_client::record::{DecodeError, Field, TargetRecord};

fn record(
    name: Option<&str>,
    game: i8,
    guid: Option<&str>,
    game_id: Option<&str>,
    user: &str,
    timestamp: u128,
) -> TargetRecord {
    TargetRecord {
        name: name.map(String::from),
        game,
        guid: guid.map(String::from),
        game_id: game_id.map(String::from),
        user: user.to_string(),
        timestamp,
    }
}

fn same(a: &TargetRecord, b: &TargetRecord) -> bool {
    a.name == b.name
        && a.game == b.game
        && a.guid == b.guid
        && a.game_id == b.game_id
        && a.user == b.user
        && a.timestamp == b.timestamp
}

fn error_of(text: &str) -> DecodeError {
    match TargetRecord::from_json(text) {
        Ok(r) => panic!("decoded {:?}", r),
        Err(e) => e,
    }
}

#[test]
fn optional_fields_omitted_are_absent() {
    let r = TargetRecord::from_json(r#"{"game":1,"user":"alice","timestamp":1700000000000}"#)
        .unwrap();
    assert_eq!(r.name, None);
    assert_eq!(r.guid, None);
    assert_eq!(r.game_id, None);
    assert_eq!(r.user, "alice");
    assert_eq!(r.game, 1);
    assert_eq!(r.timestamp, 1700000000000);
}

#[test]
fn fully_populated_payload_decodes_literally() {
    let r = TargetRecord::from_json(
        r#"{"name":"srv1","game":5,"guid":"g-1","gameId":"bf4-2","user":"bob","timestamp":1}"#,
    )
    .unwrap();
    assert_eq!(r.name.as_deref(), Some("srv1"));
    assert_eq!(r.game, 5);
    assert_eq!(r.guid.as_deref(), Some("g-1"));
    assert_eq!(r.game_id.as_deref(), Some("bf4-2"));
    assert_eq!(r.user, "bob");
    assert_eq!(r.timestamp, 1);
}

#[test]
fn null_optional_fields_are_absent() {
    let r = TargetRecord::from_json(
        r#"{"name":null,"game":-3,"guid":null,"gameId":"x","user":"u","timestamp":0}"#,
    )
    .unwrap();
    assert_eq!(r.name, None);
    assert_eq!(r.guid, None);
    assert_eq!(r.game_id.as_deref(), Some("x"));
    assert_eq!(r.game, -3);
    assert_eq!(r.timestamp, 0);
}

#[test]
fn unknown_fields_are_ignored() {
    let r = TargetRecord::from_json(r#"{"extra":[1,2],"game":0,"user":"u","timestamp":7}"#)
        .unwrap();
    assert_eq!(r.user, "u");
    assert_eq!(r.timestamp, 7);
}

#[test]
fn missing_user_is_a_schema_error() {
    assert_eq!(
        error_of(r#"{"game":1,"timestamp":1700000000000}"#),
        DecodeError::Missing(Field::User)
    );
    assert_eq!(
        error_of(r#"{"name":"n","game":1,"timestamp":5}"#),
        DecodeError::Missing(Field::User)
    );
}

#[test]
fn empty_user_is_kept_when_given() {
    let r = TargetRecord::from_json(r#"{"game":1,"user":"","timestamp":2}"#).unwrap();
    assert_eq!(r.user, "");
}

#[test]
fn missing_game_and_timestamp_are_errors() {
    assert_eq!(error_of(r#"{"user":"a","timestamp":1}"#), DecodeError::Missing(Field::Game));
    assert_eq!(error_of(r#"{"user":"a","game":1}"#), DecodeError::Missing(Field::Timestamp));
}

#[test]
fn wrong_types_are_errors() {
    assert_eq!(error_of(r#"{"game":"1","user":"a","timestamp":1}"#), DecodeError::Invalid(Field::Game));
    assert_eq!(error_of(r#"{"game":1.0,"user":"a","timestamp":1}"#), DecodeError::Invalid(Field::Game));
    assert_eq!(error_of(r#"{"game":1,"user":null,"timestamp":1}"#), DecodeError::Invalid(Field::User));
    assert_eq!(error_of(r#"{"game":1,"user":7,"timestamp":1}"#), DecodeError::Invalid(Field::User));
    assert_eq!(error_of(r#"{"name":3,"game":1,"user":"a","timestamp":1}"#), DecodeError::Invalid(Field::Name));
    assert_eq!(error_of(r#"{"game":1,"guid":true,"user":"a","timestamp":1}"#), DecodeError::Invalid(Field::Guid));
    assert_eq!(error_of(r#"{"game":1,"gameId":{},"user":"a","timestamp":1}"#), DecodeError::Invalid(Field::GameId));
    assert_eq!(error_of(r#"{"game":1,"user":"a","timestamp":-1}"#), DecodeError::Invalid(Field::Timestamp));
    assert_eq!(error_of(r#"{"game":1,"user":"a","timestamp":1e3}"#), DecodeError::Invalid(Field::Timestamp));
}

#[test]
fn game_range_is_that_of_i8() {
    assert_eq!(TargetRecord::from_json(r#"{"game":127,"user":"a","timestamp":1}"#).unwrap().game, 127);
    assert_eq!(TargetRecord::from_json(r#"{"game":-128,"user":"a","timestamp":1}"#).unwrap().game, -128);
    assert_eq!(error_of(r#"{"game":128,"user":"a","timestamp":1}"#), DecodeError::Invalid(Field::Game));
    assert_eq!(error_of(r#"{"game":-129,"user":"a","timestamp":1}"#), DecodeError::Invalid(Field::Game));
    assert_eq!(error_of(r#"{"game":-0,"user":"a","timestamp":1}"#), DecodeError::Invalid(Field::Game));
}

#[test]
fn timestamp_keeps_full_u128_precision() {
    let r = TargetRecord::from_json(
        r#"{"game":1,"user":"a","timestamp":340282366920938463463374607431768211455}"#,
    )
    .unwrap();
    assert_eq!(r.timestamp, u128::MAX);
    let r = TargetRecord::from_json(r#"{"game":1,"user":"a","timestamp":18446744073709551616}"#)
        .unwrap();
    assert_eq!(r.timestamp, 1u128 << 64);
    assert_eq!(
        error_of(r#"{"game":1,"user":"a","timestamp":340282366920938463463374607431768211456}"#),
        DecodeError::Invalid(Field::Timestamp)
    );
}

#[test]
fn non_object_text_is_malformed() {
    assert_eq!(error_of("not json"), DecodeError::Malformed);
    assert_eq!(error_of(""), DecodeError::Malformed);
    assert_eq!(error_of("[1,2]"), DecodeError::Malformed);
    assert_eq!(error_of("\"text\""), DecodeError::Malformed);
    assert_eq!(error_of(r#"{"game":1,"user":"a""#), DecodeError::Malformed);
}

#[test]
fn json_round_trip_for_every_optional_combination() {
    for mask in 0..8u8 {
        let r = record(
            if mask & 1 != 0 { Some("srv \"one\"") } else { None },
            if mask & 2 != 0 { -128 } else { 127 },
            if mask & 2 != 0 { Some("g-1") } else { None },
            if mask & 4 != 0 { Some("bf4-\u{e9}\n") } else { None },
            "bob\\",
            u128::MAX - mask as u128,
        );
        let back = TargetRecord::from_json(&r.to_json()).unwrap();
        assert!(same(&r, &back), "{:?} vs {:?}", r, back);
    }
}

#[test]
fn fields_round_trip() {
    let r = record(Some("n"), -7, None, Some("id"), "user", 1700000000000);
    let back = TargetRecord::from_fields(&r.to_fields()).unwrap();
    assert!(same(&r, &back));
}

#[test]
fn to_json_writes_every_field_in_order() {
    let r = record(None, -2, Some("g"), None, "a\"b", 42);
    assert_eq!(
        r.to_json(),
        r#"{"name":null,"game":-2,"guid":"g","gameId":null,"user":"a\"b","timestamp":42}"#
    );
}

#[test]
fn to_fields_lists_the_wire_entries() {
    let r = record(Some("s"), 9, None, None, "u", 10);
    let o = r.to_fields();
    let keys: Vec<&str> = o.entries.iter().map(|e| e.0.as_str()).collect();
    assert_eq!(keys, vec!["name", "game", "guid", "gameId", "user", "timestamp"]);
    assert!(matches!(o.get("game"), Some(JsonField::Number(t)) if t == "9"));
    assert!(matches!(o.get("guid"), Some(JsonField::Null)));
    assert!(matches!(o.get("timestamp"), Some(JsonField::Number(t)) if t == "10"));
}

#[test]
fn get_takes_the_first_entry_of_a_key() {
    let o = JsonObject {
        entries: vec![
            ("user".to_string(), JsonField::Text("first".to_string())),
            ("user".to_string(), JsonField::Text("second".to_string())),
            ("game".to_string(), JsonField::Number("1".to_string())),
            ("timestamp".to_string(), JsonField::Number("3".to_string())),
        ],
    };
    assert!(o.get("missing").is_none());
    let r = TargetRecord::from_fields(&o).unwrap();
    assert_eq!(r.user, "first");
}

#[test]
fn field_keys_are_the_wire_names() {
    assert_eq!(Field::GameId.key(), "gameId");
    assert_eq!(Field::Timestamp.key(), "timestamp");
}
