use gj_codec::response::{
    check_response_errors, parse_download_gj_level_response,
    parse_get_gj_acccount_comments_response, parse_get_gj_comments_response,
    parse_get_gj_levels_response, parse_get_gj_user_info_response, parse_get_gj_users_response,
    ResponseError,
};

// Body exactly "-1" decodes to a not-found error regardless of endpoint.
#[test]
fn minus_one_is_not_found_regardless_of_endpoint() {
    assert!(matches!(check_response_errors("-1"), Err(ResponseError::NotFound)));
    assert!(matches!(
        parse_get_gj_levels_response("-1"),
        Err(ResponseError::NotFound)
    ));
    assert!(matches!(
        parse_download_gj_level_response("-1"),
        Err(ResponseError::NotFound)
    ));
    assert!(matches!(
        parse_get_gj_user_info_response("-1"),
        Err(ResponseError::NotFound)
    ));
    assert!(matches!(
        parse_get_gj_users_response("-1"),
        Err(ResponseError::NotFound)
    ));
    assert!(matches!(
        parse_get_gj_comments_response("-1"),
        Err(ResponseError::NotFound)
    ));
    assert!(matches!(
        parse_get_gj_acccount_comments_response("-1"),
        Err(ResponseError::NotFound)
    ));
}

// Body exactly equal to the access-block literal decodes to an
// access-blocked error.
#[test]
fn access_block_literal_is_reported_before_parsing() {
    assert!(matches!(
        check_response_errors("error code: 1005"),
        Err(ResponseError::IpBanned)
    ));
    assert!(matches!(
        parse_get_gj_levels_response("error code: 1005"),
        Err(ResponseError::IpBanned)
    ));
    assert!(matches!(
        parse_get_gj_user_info_response("error code: 1005"),
        Err(ResponseError::IpBanned)
    ));
}

#[test]
fn other_bodies_pass_the_sentinel_check() {
    assert!(check_response_errors("-10").is_ok());
    assert!(check_response_errors("").is_ok());
    assert!(check_response_errors("error code: 1006").is_ok());
}

#[test]
fn too_few_sections_is_unexpected_format() {
    assert!(matches!(
        parse_get_gj_levels_response("only#two"),
        Err(ResponseError::UnexpectedFormat)
    ));
}

// End-to-end: two levels, two creators, two songs; the first level's
// creator id matches the first creator and it names no song; the second
// level's song id matches the second song and its creator matches nothing.
#[test]
fn level_listing_cross_references_leniently() {
    let body = "1:11:2:Alpha:6:10:10:5:14:3:35:|1:12:2:Beta:6:99:10:0:14:1:35:77#\
                10:CrA:500|20:CrB:600#\
                1~|~33~|~2~|~Other~:~1~|~77~|~2~|~Tune";
    let levels = parse_get_gj_levels_response(body).unwrap();
    assert_eq!(levels.len(), 2);

    assert_eq!(levels[0].level.level_id, 11);
    let creator = levels[0].creator.as_ref().expect("first level's creator should resolve");
    assert_eq!(creator.user_id, 10);
    assert_eq!(creator.name, "CrA");
    assert!(levels[0].custom_song.is_none());

    assert_eq!(levels[1].level.level_id, 12);
    assert!(levels[1].creator.is_none());
    let song = levels[1].custom_song.as_ref().expect("second level's song should resolve");
    assert_eq!(song.song_id, 77);
    assert_eq!(song.name, "Tune");
}

// Doubled delimiters inside the creator and song sections produce empty
// fragments, which are dropped instead of failing the parse.
#[test]
fn empty_related_fragments_are_dropped() {
    let body = "1:11:2:Alpha:6:10:10:5:14:3:35:#10:CrA:500||#";
    let levels = parse_get_gj_levels_response(body).unwrap();
    assert_eq!(levels.len(), 1);
    assert!(levels[0].creator.is_some());
    assert!(levels[0].custom_song.is_none());
}

#[test]
fn bad_creator_fragment_aborts_the_listing() {
    let body = "1:11:2:Alpha:6:10:10:5:14:3:35:#bad#";
    assert!(matches!(
        parse_get_gj_levels_response(body),
        Err(ResponseError::De(_))
    ));
}

#[test]
fn download_takes_the_first_section_only() {
    let level = parse_download_gj_level_response("1:11:2:Alpha:6:10:10:5:14:3:35:77#extra#junk")
        .unwrap();
    assert_eq!(level.level_id, 11);
    assert_eq!(level.custom_song, Some(77));
}

#[test]
fn profile_fills_the_whole_body() {
    let p = parse_get_gj_user_info_response("1:RobTop:2:16:16:71").unwrap();
    assert_eq!(p.name, "RobTop");
    assert_eq!(p.user_id, 16);
    assert_eq!(p.account_id, 71);
}

#[test]
fn user_search_returns_at_most_one_record() {
    let u = parse_get_gj_users_response("1:Alice:2:5:16:9#ignored").unwrap();
    assert_eq!(u.name, "Alice");
    assert_eq!(u.user_id, 5);
}

// Paired comment/author decoding: the reserved author literal resolves to
// an empty author relation; a real author fragment is parsed; a pair
// without exactly one ':' separator is a structural error.
#[test]
fn comment_author_pairs_decode_with_sentinel_and_author() {
    let body = "2~nice~4~3~6~1:1~~9~~10~~11~~14~~15~~16~|2~wow~4~1~6~2:1~Bob~16~77";
    let comments = parse_get_gj_comments_response(body).unwrap();
    assert_eq!(comments.len(), 2);
    assert_eq!(comments[0].content, "nice");
    assert!(comments[0].user.is_none());
    assert_eq!(comments[1].content, "wow");
    let author = comments[1].user.as_ref().expect("second author should parse");
    assert_eq!(author.name, "Bob");
    assert_eq!(author.account_id, Some(77));
}

#[test]
fn comment_pair_without_separator_is_unexpected_format() {
    assert!(matches!(
        parse_get_gj_comments_response("2~nice~4~3~6~1"),
        Err(ResponseError::UnexpectedFormat)
    ));
}

#[test]
fn comment_pair_with_two_separators_is_unexpected_format() {
    assert!(matches!(
        parse_get_gj_comments_response("2~nice~4~3~6~1:1~Bob:extra"),
        Err(ResponseError::UnexpectedFormat)
    ));
}

#[test]
fn bad_author_fragment_aborts_the_comment_list() {
    assert!(matches!(
        parse_get_gj_comments_response("2~nice~4~3~6~1:9~7"),
        Err(ResponseError::De(_))
    ));
}

#[test]
fn account_comments_decode_as_a_plain_list() {
    let comments =
        parse_get_gj_acccount_comments_response("2~First~4~2~6~1|2~Second~4~0~6~2").unwrap();
    assert_eq!(comments.len(), 2);
    assert_eq!(comments[0].content, "First");
    assert_eq!(comments[0].likes, 2);
    assert_eq!(comments[1].comment_id, 2);
}

#[test]
fn empty_body_is_too_few_sections_for_listings() {
    assert!(matches!(
        parse_get_gj_levels_response(""),
        Err(ResponseError::UnexpectedFormat)
    ));
}

#[test]
fn empty_body_is_a_malformed_record_for_comment_lists() {
    assert!(matches!(
        parse_get_gj_acccount_comments_response(""),
        Err(ResponseError::De(_))
    ));
}

#[test]
fn bad_account_comment_aborts_the_list() {
    assert!(matches!(
        parse_get_gj_acccount_comments_response("2~First~4~2~6~1|nonsense"),
        Err(ResponseError::De(_))
    ));
}
