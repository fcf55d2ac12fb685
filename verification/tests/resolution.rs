use config_dirs::Error;
use config_dirs::resolve::Outcome;
use config_dirs::resolve::Resolution;

/// Drive a resolution against a simulated filesystem: a list of
/// `(path, parser verdict)` pairs; every other path counts as missing.
/// Returns the final result and the paths that were probed, in order.
fn drive(
    mut resolution: Resolution<String, String>,
    files: &[(&str, Result<String, String>)],
) -> (Result<String, Error<String>>, Vec<String>) {
    let mut probed: Vec<String> = Vec::new();
    loop {
        let path = match resolution.next_path() {
            Some(p) => p.clone(),
            None => panic!("resolution exhausted without a verdict"),
        };
        probed.push(path.clone());
        let outcome = match files.iter().find(|(p, _)| *p == path) {
            Some((_, verdict)) => Outcome::Parsed(verdict.clone()),
            None => Outcome::Missing,
        };
        if let Some(result) = resolution.report(outcome) {
            return (result, probed);
        }
    }
}

#[test]
fn no_files_anywhere_is_no_path() {
    let resolution: Resolution<String, String> =
        Resolution::new_with_home("my-app", None, Some("/home/u"));
    let (result, probed) = drive(resolution, &[]);
    assert!(matches!(result, Err(Error::NoPath)));
    assert_eq!(probed.len(), 5);
}

#[test]
fn first_existing_fallback_wins() {
    let resolution: Resolution<String, String> =
        Resolution::new_with_home("my-app", None, Some("/home/u"));
    let files = [("/etc/my-app/config.toml", Ok("etc content".to_string()))];
    let (result, probed) = drive(resolution, &files);
    assert_eq!(result.unwrap(), "etc content");
    assert_eq!(
        probed,
        vec![
            "/home/u/.config/my-app/config.toml".to_string(),
            "/etc/my-app/config.toml".to_string(),
        ]
    );
}

#[test]
fn override_wins_over_existing_fallback() {
    let resolution: Resolution<String, String> =
        Resolution::new_with_home("my-app", Some("/tmp/custom.toml"), Some("/home/u"));
    let files = [
        ("/tmp/custom.toml", Ok("custom content".to_string())),
        (
            "/home/u/.config/my-app/config.toml",
            Ok("home content".to_string()),
        ),
    ];
    let (result, probed) = drive(resolution, &files);
    assert_eq!(result.unwrap(), "custom content");
    assert_eq!(probed, vec!["/tmp/custom.toml".to_string()]);
}

#[test]
fn missing_override_falls_through_to_fallbacks() {
    let resolution: Resolution<String, String> =
        Resolution::new_with_home("my-app", Some("/tmp/absent.toml"), Some("/home/u"));
    let files = [("/etc/my-app/config.toml", Ok("etc content".to_string()))];
    let (result, probed) = drive(resolution, &files);
    assert_eq!(result.unwrap(), "etc content");
    assert_eq!(probed.len(), 3);
    assert_eq!(probed[0], "/tmp/absent.toml");
}

#[test]
fn parse_failure_aborts_the_scan() {
    let resolution: Resolution<String, String> =
        Resolution::new_with_home("my-app", Some("/tmp/custom.toml"), Some("/home/u"));
    let files = [
        ("/tmp/custom.toml", Err("bad syntax".to_string())),
        (
            "/home/u/.config/my-app/config.toml",
            Ok("home content".to_string()),
        ),
    ];
    let (result, probed) = drive(resolution, &files);
    match result {
        Err(Error::Parse(e)) => assert_eq!(e, "bad syntax"),
        other => panic!("expected a parse failure, got {:?}", other),
    }
    assert_eq!(probed, vec!["/tmp/custom.toml".to_string()]);
}

#[test]
fn read_failure_aborts_the_scan() {
    let mut resolution: Resolution<String, String> =
        Resolution::new_with_home("my-app", Some("/tmp/custom.toml"), Some("/home/u"));
    let first = resolution.next_path().unwrap().clone();
    assert_eq!(first, "/tmp/custom.toml");
    let denied = std::io::Error::new(std::io::ErrorKind::PermissionDenied, "permission denied");
    let result = resolution.report(Outcome::Failed(denied));
    match result {
        Some(Err(Error::Io(e))) => {
            assert_eq!(e.kind(), std::io::ErrorKind::PermissionDenied);
        },
        other => panic!("expected an I/O failure, got {:?}", other),
    }
}

#[test]
fn exhaustion_without_home_probes_three_paths() {
    let resolution: Resolution<String, String> = Resolution::new_with_home("my-app", None, None);
    let (result, probed) = drive(resolution, &[]);
    assert!(matches!(result, Err(Error::NoPath)));
    assert_eq!(
        probed,
        vec![
            "/etc/my-app/config.toml".to_string(),
            "/usr/local/etc/my-app/config.toml".to_string(),
            "/Library/Preferences/my-app/config.toml".to_string(),
        ]
    );
}

#[test]
fn resolution_with_looked_up_home_lists_candidates() {
    let mut resolution: Resolution<String, String> = Resolution::new("my-app", None);
    let mut count = 0;
    loop {
        let path = match resolution.next_path() {
            Some(p) => p.clone(),
            None => break,
        };
        assert!(path.ends_with("/my-app/config.toml"));
        let verdict = resolution.report(Outcome::Missing);
        count += 1;
        if verdict.is_some() {
            break;
        }
    }
    assert!(count == 3 || count == 5);
}
