use spotify_cli::config::{default_port, Config};

#[test]
fn default_port_is_8888() {
    assert_eq!(default_port(), 8888);
}

#[test]
fn dir_under_base() {
    assert_eq!(Config::config_dir_in(Some("/home/u/.config")), "/home/u/.config/spotify-cli");
    assert_eq!(Config::config_dir_in(Some("/home/u/.config/")), "/home/u/.config/spotify-cli");
    assert_eq!(Config::config_dir_in(None), "./spotify-cli");
}

#[test]
fn files_in_app_dir() {
    let dir = Config::config_dir();
    assert!(dir.ends_with("spotify-cli"));
    assert_eq!(Config::config_path(), format!("{dir}/config.toml"));
    assert_eq!(Config::token_path(), format!("{dir}/tokens.json"));
}

#[test]
fn placeholder_detection() {
    let mut c = Config { client_id: "YOUR_CLIENT_ID_HERE".into(), client_secret: "x".into(), redirect_port: 1 };
    assert!(c.has_placeholder_id());
    c.client_id = "abc123".into();
    assert!(!c.has_placeholder_id());
}

#[test]
fn files_under_base() {
    assert_eq!(Config::config_file_in(Some("/home/u/.config"), "config.toml"), "/home/u/.config/spotify-cli/config.toml");
    assert_eq!(Config::config_file_in(None, "tokens.json"), "./spotify-cli/tokens.json");
    assert_ne!(Config::config_path(), Config::token_path());
}

#[test]
fn files_under_unusual_bases() {
    assert_eq!(Config::config_dir_in(Some("")), "spotify-cli");
    assert_eq!(Config::config_dir_in(Some("/srv/a:b")), "/srv/a:b/spotify-cli");
    assert_eq!(
        Config::config_file_in(Some("/srv/a:b"), "tokens.json"),
        "/srv/a:b/spotify-cli/tokens.json"
    );
    let drive = Config::config_file_in(Some("C:\\Users\\x\\AppData\\Roaming"), "config.toml");
    assert!(drive.starts_with("C:\\Users\\x\\AppData\\Roaming"));
    assert!(drive.ends_with("spotify-cli/config.toml") || drive.ends_with("spotify-cli\\config.toml"));
    let trailing = Config::config_dir_in(Some("C:\\Users\\x\\"));
    assert!(trailing == "C:\\Users\\x\\spotify-cli" || trailing == "C:\\Users\\x\\/spotify-cli");
    let bare = Config::config_dir_in(Some("C:"));
    assert!(bare == "C:spotify-cli" || bare == "C:/spotify-cli" || bare == "C:\\spotify-cli");
}
