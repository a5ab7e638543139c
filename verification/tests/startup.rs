use comic_manager::report::report_lines;
use comic_manager::secrets::{gather_secrets, SecretVar, Secrets};
use comic_manager::settings::{build_settings, ConfigKey, Settings};

fn full_settings() -> (Option<String>, Option<String>, Option<String>) {
    (
        Some(String::from("postgres://localhost/comics")),
        Some(String::from("https://gateway.marvel.com")),
        Some(String::from("https://comicvine.gamespot.com/api")),
    )
}

fn full_secrets() -> (Option<String>, Option<String>, Option<String>) {
    (
        Some(String::from("marvel-public")),
        Some(String::from("marvel-private")),
        Some(String::from("comicvine-key")),
    )
}

#[test]
fn settings_build_when_all_keys_are_present() {
    let (db, marvel, comicvine) = full_settings();
    let settings = build_settings(db, marvel, comicvine).unwrap();
    assert_eq!(settings.database_url, "postgres://localhost/comics");
    assert_eq!(settings.marvel_base_url, "https://gateway.marvel.com");
    assert_eq!(settings.comicvine_base_url, "https://comicvine.gamespot.com/api");
}

#[test]
fn missing_database_url_is_reported_first() {
    let (_, marvel, comicvine) = full_settings();
    let r = build_settings(None, marvel, comicvine);
    assert_eq!(r.err(), Some(ConfigKey::DatabaseUrl));
    let r = build_settings(None, None, None);
    assert_eq!(r.err(), Some(ConfigKey::DatabaseUrl));
}

#[test]
fn missing_marvel_base_url_is_reported() {
    let (db, _, comicvine) = full_settings();
    let r = build_settings(db, None, comicvine);
    assert_eq!(r.err(), Some(ConfigKey::MarvelBaseUrl));
}

#[test]
fn missing_comicvine_base_url_is_reported() {
    let (db, marvel, _) = full_settings();
    let r = build_settings(db, marvel, None);
    assert_eq!(r.err(), Some(ConfigKey::ComicvineBaseUrl));
}

#[test]
fn config_key_paths_match_the_file_layout() {
    assert_eq!(ConfigKey::DatabaseUrl.path(), "database.url");
    assert_eq!(ConfigKey::MarvelBaseUrl.path(), "api.marvel_base_url");
    assert_eq!(ConfigKey::ComicvineBaseUrl.path(), "api.comicvine_base_url");
}

#[test]
fn secrets_gather_when_all_variables_are_set() {
    let (public, private, comicvine) = full_secrets();
    let secrets = gather_secrets(public, private, comicvine).unwrap();
    assert_eq!(secrets.marvel_public_key, "marvel-public");
    assert_eq!(secrets.marvel_private_key, "marvel-private");
    assert_eq!(secrets.comicvine_key, "comicvine-key");
}

#[test]
fn each_unset_variable_is_named() {
    let (_, private, comicvine) = full_secrets();
    let r = gather_secrets(None, private, comicvine);
    assert_eq!(r.err(), Some(SecretVar::MarvelPublicKey));

    let (public, _, comicvine) = full_secrets();
    let r = gather_secrets(public, None, comicvine);
    assert_eq!(r.err(), Some(SecretVar::MarvelPrivateKey));

    let (public, private, _) = full_secrets();
    let r = gather_secrets(public, private, None);
    assert_eq!(r.err(), Some(SecretVar::ComicvineKey));
}

#[test]
fn missing_messages_name_the_variable() {
    assert_eq!(
        SecretVar::MarvelPublicKey.missing_message(),
        "MARVEL_API_PUBLIC_KEY not set"
    );
    assert_eq!(
        SecretVar::MarvelPrivateKey.missing_message(),
        "MARVEL_API_PRIVATE_KEY not set"
    );
    assert_eq!(
        SecretVar::ComicvineKey.missing_message(),
        "COMICVINE_API_KEY not set"
    );
    assert!(SecretVar::ComicvineKey
        .missing_message()
        .starts_with(SecretVar::ComicvineKey.name()));
}

fn loaded_pair() -> (Settings, Secrets) {
    let (db, marvel, comicvine) = full_settings();
    let settings = build_settings(db, marvel, comicvine).unwrap();
    let (public, private, key) = full_secrets();
    let secrets = gather_secrets(public, private, key).unwrap();
    (settings, secrets)
}

#[test]
fn report_lists_every_loaded_value_behind_its_label() {
    let (settings, secrets) = loaded_pair();
    let lines = report_lines(&settings, &secrets);
    assert_eq!(
        lines,
        vec![
            String::from("Database URL: postgres://localhost/comics"),
            String::from("Marvel API Base URL: https://gateway.marvel.com"),
            String::from("ComicVine API Base URL: https://comicvine.gamespot.com/api"),
            String::from("Marvel API Public Key: marvel-public"),
            String::from("Marvel API Private Key: marvel-private"),
            String::from("ComicVine API Key: comicvine-key"),
        ]
    );
}

#[test]
fn report_twice_gives_identical_output() {
    let (settings, secrets) = loaded_pair();
    let first = report_lines(&settings, &secrets);
    let second = report_lines(&settings, &secrets);
    assert_eq!(first, second);
}
