use config_dirs::expand_home;
use config_dirs::override_var_name;

#[test]
fn override_var_name_uses_word_boundaries() {
    assert_eq!(override_var_name("my-app"), "MY_APP_CONFIG");
}

#[test]
fn override_var_name_splits_camel_case() {
    assert_eq!(override_var_name("myApp"), "MY_APP_CONFIG");
}

#[test]
fn override_var_name_plain_word() {
    assert_eq!(override_var_name("app"), "APP_CONFIG");
}

#[test]
fn expand_home_expands_tilde() {
    assert_eq!(
        expand_home("~/.config/app/config.toml", Some("/home/u")),
        Some("/home/u/.config/app/config.toml".to_string())
    );
}

#[test]
fn expand_home_without_home_skips() {
    assert_eq!(expand_home("~/.config/app/config.toml", None), None);
}

#[test]
fn expand_home_keeps_plain_path() {
    assert_eq!(
        expand_home("/etc/app/config.toml", Some("/home/u")),
        Some("/etc/app/config.toml".to_string())
    );
    assert_eq!(
        expand_home("relative/config.toml", None),
        Some("relative/config.toml".to_string())
    );
}

#[test]
fn candidate_paths_full_order() {
    let paths = config_dirs::candidate_paths("my-app", Some("/tmp/custom.toml"), Some("/home/u"));
    assert_eq!(
        paths,
        vec![
            "/tmp/custom.toml".to_string(),
            "/home/u/.config/my-app/config.toml".to_string(),
            "/etc/my-app/config.toml".to_string(),
            "/usr/local/etc/my-app/config.toml".to_string(),
            "/home/u/Library/Preferences/my-app/config.toml".to_string(),
            "/Library/Preferences/my-app/config.toml".to_string(),
        ]
    );
}

#[test]
fn candidate_paths_without_home_skips_tilde_entries() {
    let paths = config_dirs::candidate_paths("my-app", None, None);
    assert_eq!(
        paths,
        vec![
            "/etc/my-app/config.toml".to_string(),
            "/usr/local/etc/my-app/config.toml".to_string(),
            "/Library/Preferences/my-app/config.toml".to_string(),
        ]
    );
}

#[test]
fn candidate_paths_empty_override_is_ignored() {
    let paths = config_dirs::candidate_paths("my-app", Some(""), Some("/home/u"));
    assert_eq!(paths.len(), 5);
    assert_eq!(paths[0], "/home/u/.config/my-app/config.toml");
}

#[test]
fn candidate_paths_tilde_override_is_expanded() {
    let paths = config_dirs::candidate_paths("my-app", Some("~/custom.toml"), Some("/home/u"));
    assert_eq!(paths[0], "/home/u/custom.toml");
    assert_eq!(paths.len(), 6);
}
