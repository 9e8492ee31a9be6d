use gj_codec::model::{
    CommentUser, Creator, Level, LevelComment, NewgroundsSong, Profile, ProfileComment,
    SearchedUser,
};
use gj_codec::record::{decode_record, DeError, FieldSchema};
use gj_codec::text::split_nonempty;
use gj_codec::value::{Kind, Value};

fn chars(s: &str) -> Vec<char> {
    s.chars().collect()
}

#[test]
fn creator_decodes_positionally() {
    let c = Creator::from_gj_str("4170784:Serponge:119741").unwrap();
    assert_eq!(c.user_id, 4170784);
    assert_eq!(c.name, "Serponge");
    assert_eq!(c.account_id, Some(119741));
}

#[test]
fn creator_trailing_optional_may_be_missing() {
    let c = Creator::from_gj_str("10:Alice").unwrap();
    assert_eq!(c.user_id, 10);
    assert_eq!(c.name, "Alice");
    assert_eq!(c.account_id, None);
    let c = Creator::from_gj_str("10:Alice:").unwrap();
    assert_eq!(c.account_id, None);
}

#[test]
fn creator_bad_number_names_the_field() {
    match Creator::from_gj_str("abc:Alice:5") {
        Err(DeError::Invalid { field, text }) => {
            assert_eq!(field, "user_id");
            assert_eq!(text, "abc");
        }
        _ => panic!("invalid creator id was accepted"),
    }
}

#[test]
fn creator_missing_required_field_names_it() {
    match Creator::from_gj_str("5") {
        Err(DeError::Missing { field }) => assert_eq!(field, "name"),
        _ => panic!("truncated creator was accepted"),
    }
}

#[test]
fn song_decodes_keyed_with_multicharacter_delimiter() {
    let s = NewgroundsSong::from_gj_str("1~|~771277~|~2~|~Time Machine~|~4~|~Waterflame")
        .unwrap();
    assert_eq!(s.song_id, 771277);
    assert_eq!(s.name, "Time Machine");
    assert_eq!(s.artist.as_deref(), Some("Waterflame"));
    let s = NewgroundsSong::from_gj_str("2~|~Tune~|~1~|~77").unwrap();
    assert_eq!(s.song_id, 77);
    assert_eq!(s.name, "Tune");
    assert_eq!(s.artist, None);
}

#[test]
fn level_decodes_keyed() {
    let l = Level::from_gj_str("1:11:2:Alpha:6:10:10:5:14:3:35:77").unwrap();
    assert_eq!(l.level_id, 11);
    assert_eq!(l.name, "Alpha");
    assert_eq!(l.creator, 10);
    assert_eq!(l.downloads, 5);
    assert_eq!(l.likes, 3);
    assert_eq!(l.custom_song, Some(77));
}

#[test]
fn level_empty_song_slot_is_absent() {
    let l = Level::from_gj_str("1:11:2:Alpha:6:10:10:5:14:-2:35:").unwrap();
    assert_eq!(l.custom_song, None);
    assert_eq!(l.likes, -2);
}

#[test]
fn keyed_record_with_dangling_key_is_malformed() {
    match LevelComment::from_gj_str("2~hi~4") {
        Err(DeError::Malformed) => {}
        _ => panic!("dangling key was accepted"),
    }
}

#[test]
fn keyed_record_ignores_unknown_keys_and_takes_first_duplicate() {
    let schema = vec![FieldSchema {
        name: "2".to_string(),
        kind: Kind::Str,
        optional: false,
    }];
    let values = decode_record(
        &chars("9~junk~2~first~2~second"),
        &chars("~"),
        true,
        &schema,
    )
    .unwrap();
    assert_eq!(values.len(), 1);
    match &values[0] {
        Value::Str(s) => assert_eq!(s, "first"),
        _ => panic!("wrong value kind"),
    }
}

#[test]
fn profile_and_searched_user_decode() {
    let p = Profile::from_gj_str("1:RobTop:2:16:16:71").unwrap();
    assert_eq!(p.name, "RobTop");
    assert_eq!(p.user_id, 16);
    assert_eq!(p.account_id, 71);
    let u = SearchedUser::from_gj_str("1:Alice:2:5:16:9").unwrap();
    assert_eq!(u.name, "Alice");
    assert_eq!(u.user_id, 5);
    assert_eq!(u.account_id, Some(9));
}

#[test]
fn comments_decode_keyed_with_tilde() {
    let c = LevelComment::from_gj_str("2~nice one~4~3~6~1").unwrap();
    assert_eq!(c.content, "nice one");
    assert_eq!(c.likes, 3);
    assert_eq!(c.comment_id, 1);
    assert!(c.user.is_none());
    let p = ProfileComment::from_gj_str("2~First~4~-1~6~9").unwrap();
    assert_eq!(p.content, "First");
    assert_eq!(p.likes, -1);
    assert_eq!(p.comment_id, 9);
    let u = CommentUser::from_gj_str("1~Bob~16~77").unwrap();
    assert_eq!(u.name, "Bob");
    assert_eq!(u.icon, None);
    assert_eq!(u.account_id, Some(77));
}

// A doubled delimiter yields an empty fragment, which is dropped before
// record parsing.
#[test]
fn doubled_delimiter_fragment_is_dropped() {
    let parts = split_nonempty(&chars("a||b|"), &chars("|"));
    let texts: Vec<String> = parts.iter().map(|p| p.iter().collect()).collect();
    assert_eq!(texts, vec!["a".to_string(), "b".to_string()]);
    let parts = split_nonempty(&chars("||"), &chars("|"));
    assert!(parts.is_empty());
}
