use mcp_server_brave_search::command::{build_command, package_name, CommandDescriptor};
use mcp_server_brave_search::errors::Error;
use mcp_server_brave_search::installer::{install_plan, EnsureStep, InstallPlan, Installer};
use mcp_server_brave_search::paths::{sanitize_windows_path, Platform};
use mcp_server_brave_search::settings::{
    parse_settings, LaunchSettings, SettingsDoc, SettingsField,
};
use mcp_server_brave_search::text::str_eq;

const PACKAGE: &str = "@brave/brave-search-mcp-server";

fn settings_doc(pairs: Vec<(&str, SettingsField)>) -> SettingsDoc {
    SettingsDoc {
        fields: pairs.into_iter().map(|(k, v)| (k.to_string(), v)).collect(),
    }
}

fn valid_settings(key: &str) -> SettingsDoc {
    settings_doc(vec![("brave_api_key", SettingsField::Text(key.to_string()))])
}

#[test]
fn str_eq_compares_characters() {
    assert!(str_eq("", ""));
    assert!(str_eq("abc", "abc"));
    assert!(!str_eq("abc", "abd"));
    assert!(!str_eq("abc", "ab"));
    assert!(!str_eq("", "a"));
}

#[test]
fn sanitize_is_identity_on_linux() {
    let p = "/C:/foo/bar".to_string();
    assert_eq!(sanitize_windows_path(Platform::Linux, p.clone()), p);
    let q = "/home/u/proj".to_string();
    assert_eq!(sanitize_windows_path(Platform::Linux, q.clone()), q);
}

#[test]
fn sanitize_is_identity_on_mac() {
    let p = "/Users/u/proj".to_string();
    assert_eq!(sanitize_windows_path(Platform::Mac, p.clone()), p);
}

#[test]
fn sanitize_strips_one_leading_slash_on_windows() {
    let r = sanitize_windows_path(Platform::Windows, "/C:/foo/bar".to_string());
    assert_eq!(r, "C:/foo/bar");
}

#[test]
fn sanitize_strips_exactly_one_slash_on_windows() {
    let r = sanitize_windows_path(Platform::Windows, "//shared/dir".to_string());
    assert_eq!(r, "/shared/dir");
}

#[test]
fn sanitize_leaves_windows_path_without_leading_slash() {
    let r = sanitize_windows_path(Platform::Windows, "C:/foo".to_string());
    assert_eq!(r, "C:/foo");
}

#[test]
fn sanitize_of_root_is_empty_on_windows() {
    let r = sanitize_windows_path(Platform::Windows, "/".to_string());
    assert_eq!(r, "");
}

#[test]
fn second_call_takes_fast_path() {
    let mut installer = Installer::new();
    let installed = Ok(Some("1.0.0".to_string()));

    // First run: not yet recorded, so the latest version must be fetched.
    match installer.ensure_begin(PACKAGE, &installed) {
        EnsureStep::NeedLatest => {}
        EnsureStep::Complete(_) => panic!("first run must consult the latest version"),
    }
    let latest: Result<String, String> = Ok("1.0.0".to_string());
    match install_plan(&Some("1.0.0".to_string()), &latest) {
        InstallPlan::UpToDate => {}
        _ => panic!("equal versions need no install"),
    }
    let r = installer.ensure_finish(PACKAGE, &Some("1.0.0".to_string()), None);
    assert!(r.is_ok());

    // Second run: recorded and installed, so it completes at once — the
    // latest-version endpoint is not consulted again.
    match installer.ensure_begin(PACKAGE, &installed) {
        EnsureStep::Complete(Ok(())) => {}
        _ => panic!("second run must take the fast path"),
    }
}

#[test]
fn successful_run_records_package() {
    let mut installer = Installer::new();
    assert!(!installer.is_recorded(PACKAGE));
    let r = installer.ensure_finish(PACKAGE, &Some("2.1.0".to_string()), None);
    assert!(r.is_ok());
    assert!(installer.is_recorded(PACKAGE));
}

#[test]
fn failed_fresh_install_propagates_and_records_nothing() {
    let mut installer = Installer::new();
    let installed: Result<Option<String>, String> = Ok(None);
    match installer.ensure_begin(PACKAGE, &installed) {
        EnsureStep::NeedLatest => {}
        _ => panic!("nothing installed: the latest version must be fetched"),
    }
    match install_plan(&None, &Ok("3.0.0".to_string())) {
        InstallPlan::RunInstall(v) => assert_eq!(v, "3.0.0"),
        _ => panic!("nothing installed: an install is required"),
    }
    let r = installer.ensure_finish(PACKAGE, &None, Some("network down".to_string()));
    match r {
        Err(Error::InstallFailed(m)) => assert_eq!(m, "network down"),
        _ => panic!("a failed fresh install must fail the run"),
    }
    assert!(!installer.is_recorded(PACKAGE));
}

#[test]
fn failed_install_over_stale_version_is_tolerated() {
    let mut installer = Installer::new();
    let stale = Some("1.0.0".to_string());
    match install_plan(&stale, &Ok("2.0.0".to_string())) {
        InstallPlan::RunInstall(v) => assert_eq!(v, "2.0.0"),
        _ => panic!("an out-of-date version calls for an install"),
    }
    let r = installer.ensure_finish(PACKAGE, &stale, Some("network down".to_string()));
    assert!(r.is_ok());
    assert!(installer.is_recorded(PACKAGE));
}

#[test]
fn installed_version_query_failure_fails_the_run() {
    let installer = Installer::new();
    let installed: Result<Option<String>, String> = Err("registry unreachable".to_string());
    match installer.ensure_begin(PACKAGE, &installed) {
        EnsureStep::Complete(Err(Error::RegistryQueryFailed(m))) => {
            assert_eq!(m, "registry unreachable")
        }
        _ => panic!("a failed query must fail the run"),
    }
}

#[test]
fn latest_version_query_failure_fails_the_run() {
    match install_plan(&None, &Err("registry unreachable".to_string())) {
        InstallPlan::Fail(Error::RegistryQueryFailed(m)) => {
            assert_eq!(m, "registry unreachable")
        }
        _ => panic!("a failed query must fail the run"),
    }
}

#[test]
fn parse_settings_extracts_the_api_key() {
    let doc = valid_settings("XYZ");
    let ls: LaunchSettings = parse_settings(&doc).expect("valid settings must parse");
    assert_eq!(ls.brave_api_key, "XYZ");
}

#[test]
fn parse_settings_takes_the_first_match() {
    let doc = settings_doc(vec![
        ("other", SettingsField::Other),
        ("brave_api_key", SettingsField::Text("first".to_string())),
        ("brave_api_key", SettingsField::Text("second".to_string())),
    ]);
    let ls = parse_settings(&doc).expect("valid settings must parse");
    assert_eq!(ls.brave_api_key, "first");
}

#[test]
fn parse_settings_rejects_missing_field() {
    let doc = settings_doc(vec![("api_key", SettingsField::Text("XYZ".to_string()))]);
    match parse_settings(&doc) {
        Err(Error::InvalidConfiguration(m)) => {
            assert_eq!(m, "the `brave_api_key` setting must be a string")
        }
        _ => panic!("a missing field must be an invalid configuration"),
    }
}

#[test]
fn parse_settings_rejects_wrong_typed_field() {
    let doc = settings_doc(vec![("brave_api_key", SettingsField::Other)]);
    match parse_settings(&doc) {
        Err(Error::InvalidConfiguration(_)) => {}
        _ => panic!("a wrong-typed field must be an invalid configuration"),
    }
}

#[test]
fn build_command_without_settings_is_missing_configuration() {
    let r = build_command(
        Ok(()),
        Platform::Linux,
        None,
        "/home/u/proj".to_string(),
        "/usr/bin/node".to_string(),
    );
    match r {
        Err(Error::MissingConfiguration(m)) => {
            assert_eq!(m, "missing `brave_api_key` setting")
        }
        _ => panic!("missing settings must fail the build"),
    }
}

#[test]
fn build_command_propagates_installer_error_unchanged() {
    let e = Error::InstallFailed("network down".to_string());
    let r = build_command(
        Err(e.clone()),
        Platform::Linux,
        Some(valid_settings("XYZ")),
        "/home/u/proj".to_string(),
        "/usr/bin/node".to_string(),
    );
    assert_eq!(r.err().expect("the build must fail closed"), e);
}

#[test]
fn build_command_rejects_invalid_settings() {
    let r = build_command(
        Ok(()),
        Platform::Linux,
        Some(settings_doc(vec![("brave_api_key", SettingsField::Other)])),
        "/home/u/proj".to_string(),
        "/usr/bin/node".to_string(),
    );
    match r {
        Err(Error::InvalidConfiguration(_)) => {}
        _ => panic!("invalid settings must fail the build"),
    }
}

#[test]
fn build_command_end_to_end_on_linux() {
    let cd: CommandDescriptor = build_command(
        Ok(()),
        Platform::Linux,
        Some(valid_settings("XYZ")),
        "/home/u/proj".to_string(),
        "/usr/bin/node".to_string(),
    )
    .expect("the build must succeed");
    assert_eq!(cd.executable_path, "/usr/bin/node");
    assert_eq!(
        cd.arguments,
        vec![
            "/home/u/proj/node_modules/@brave/brave-search-mcp-server/dist/index.js".to_string(),
            "--transport".to_string(),
            "stdio".to_string(),
        ]
    );
    assert_eq!(
        cd.environment,
        vec![("BRAVE_API_KEY".to_string(), "XYZ".to_string())]
    );
}

#[test]
fn build_command_sanitizes_paths_on_windows() {
    let cd = build_command(
        Ok(()),
        Platform::Windows,
        Some(valid_settings("XYZ")),
        "/C:/proj".to_string(),
        "/C:/node/node.exe".to_string(),
    )
    .expect("the build must succeed");
    assert_eq!(cd.executable_path, "C:/node/node.exe");
    assert_eq!(
        cd.arguments[0],
        "C:/proj/node_modules/@brave/brave-search-mcp-server/dist/index.js"
    );
}

#[test]
fn package_name_is_fixed() {
    assert_eq!(package_name(), PACKAGE);
}

#[test]
fn error_message_returns_the_carried_text() {
    assert_eq!(
        Error::RegistryQueryFailed("a".to_string()).message(),
        "a"
    );
    assert_eq!(Error::InstallFailed("b".to_string()).message(), "b");
    assert_eq!(Error::MissingConfiguration("c".to_string()).message(), "c");
    assert_eq!(Error::InvalidConfiguration("d".to_string()).message(), "d");
}
