use gj_codec::request::{endpoint_base_url, BaseRequest, GameVersion};
use gj_codec::user::{UserRequest, UserSearchRequest};

#[test]
fn base_url_defaults_to_the_fixed_literal() {
    assert_eq!(
        endpoint_base_url(None),
        "https://www.silverragdps.mathieuar.fr"
    );
    assert_eq!(
        endpoint_base_url(Some("http://localhost:8080/")),
        "http://localhost:8080/"
    );
}

#[test]
fn default_base_request_is_a_two_two_client() {
    let base = BaseRequest::default();
    assert_eq!(base.game_version, GameVersion { major: 2, minor: 2 });
    assert_eq!(base.binary_version, GameVersion { major: 3, minor: 8 });
    assert_eq!(base.secret, "Wmfd2893gb7");
}

#[test]
fn game_versions_travel_as_one_number() {
    assert_eq!(GameVersion { major: 2, minor: 2 }.wire_number(), 22);
    assert_eq!(GameVersion { major: 3, minor: 8 }.wire_number(), 38);
    assert_eq!(GameVersion { major: 2, minor: 1 }.wire_number(), 21);
}

#[test]
fn user_request_url_and_body() {
    let req = UserRequest::new(119741);
    assert_eq!(
        req.to_url(),
        "https://www.silverragdps.mathieuar.frgetGJUserInfo20.php"
    );
    assert_eq!(
        req.to_request_string(),
        "gameVersion&22&binaryVersion&38&secret&Wmfd2893gb7&targetAccountID&119741"
    );
}

#[test]
fn user_search_request_url_and_body() {
    let req = UserSearchRequest::new("Serponge");
    assert_eq!(req.total, 0);
    assert_eq!(req.page, 0);
    assert_eq!(
        req.to_url(),
        "https://www.silverragdps.mathieuar.frgetGJUsers20.php"
    );
    assert_eq!(
        req.to_request_string(),
        "gameVersion&22&binaryVersion&38&secret&Wmfd2893gb7&total&0&page&0&str&Serponge"
    );
}

#[test]
fn base_request_new_keeps_its_arguments() {
    let base = BaseRequest::new(
        GameVersion { major: 2, minor: 1 },
        GameVersion { major: 3, minor: 3 },
        "Wmfd2893gb7",
    );
    assert_eq!(base.game_version.wire_number(), 21);
    assert_eq!(base.binary_version.wire_number(), 33);
    assert_eq!(base.secret, "Wmfd2893gb7");
}
