//! The launch URI parser and the uninstall confirmation.

use bootstrapper::prompt::confirms_uninstall;
use bootstrapper::uri::{parse_launch_uri, UriParseError};

#[test]
fn a_full_launch_uri_parses_into_its_fields() {
    let uri = "pekora-player:1+launchmode:play+clientversion:2017L+gameinfo:token123+placelauncherurl:https://example.test/placelauncher.ashx?x=1";
    let args = parse_launch_uri(uri).unwrap();
    assert_eq!(args.launch_mode, "play");
    assert_eq!(args.client_version, "2017L");
    assert_eq!(args.game_info, "token123");
    assert_eq!(
        args.place_launcher_url,
        "https://example.test/placelauncher.ashx?x=1"
    );
}

#[test]
fn a_trailing_field_is_ignored() {
    let uri = "pekora-player:1+launchmode:play+clientversion:2018L+gameinfo:g+placelauncherurl:u+extra:stuff";
    let args = parse_launch_uri(uri).unwrap();
    assert_eq!(args.client_version, "2018L");
    assert_eq!(args.place_launcher_url, "u");
}

#[test]
fn a_wrong_scheme_is_rejected() {
    assert!(matches!(
        parse_launch_uri("other-player:1+launchmode:play+clientversion:v+gameinfo:g+placelauncherurl:u"),
        Err(UriParseError)
    ));
}

#[test]
fn a_missing_key_is_rejected() {
    assert!(matches!(
        parse_launch_uri("pekora-player:1+launchmode:play+clientversion:v+placelauncherurl:u"),
        Err(UriParseError)
    ));
}

#[test]
fn an_empty_field_is_rejected() {
    assert!(matches!(
        parse_launch_uri(
            "pekora-player:1+launchmode:+clientversion:v+gameinfo:g+placelauncherurl:u"
        ),
        Err(UriParseError)
    ));
    assert!(matches!(
        parse_launch_uri(
            "pekora-player:1+launchmode:play+clientversion:v+gameinfo:g+placelauncherurl:"
        ),
        Err(UriParseError)
    ));
}

#[test]
fn the_empty_string_is_rejected() {
    assert!(matches!(parse_launch_uri(""), Err(UriParseError)));
    assert!(matches!(
        parse_launch_uri("pekora-player:"),
        Err(UriParseError)
    ));
}

#[test]
fn only_yes_answers_confirm_the_uninstall() {
    assert!(confirms_uninstall(&b"y".to_vec()));
    assert!(confirms_uninstall(&b"Y\n".to_vec()));
    assert!(confirms_uninstall(&b" yes ".to_vec()));
    assert!(confirms_uninstall(&b"YES\r\n".to_vec()));
    assert!(!confirms_uninstall(&b"n".to_vec()));
    assert!(!confirms_uninstall(&b"no".to_vec()));
    assert!(!confirms_uninstall(&b"".to_vec()));
    assert!(!confirms_uninstall(&b"yess".to_vec()));
    assert!(!confirms_uninstall(&b"y e s".to_vec()));
}
