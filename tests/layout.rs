use windman::cli::{update_decision, wants_desktop, Cli, Commands, InstallArgs, UpdateDecision};
use windman::config::{Config, ConfigPaths};
use windman::install::{staging_name, temp_link_name};
use windman::error::ManagerError;
use windman::paths::{expand_tilde, join_path, paths_from_expanded, resolve_paths};
use windman::remote::{latest_from_api, download_file_name, latest_version_from_releases_html, normalize_latest, LatestInfo};
use windman::shim::{desktop_entry, shim_script};

#[test]
fn default_config_values() {
    let c = Config::default();
    assert_eq!(c.install.prefix_dir, "~/.local/opt/windsurf");
    assert_eq!(c.install.bin_dir, "~/.local/bin");
    assert_eq!(c.install.channel, "stable");
    assert_eq!(c.install.keep, 2);
    assert!(c.install.desktop_integration);
    assert!(!c.network.proxy_enabled);
}

#[test]
fn config_renders_as_toml() {
    let mut c = Config::default();
    c.install.keep = 12;
    let text = c.to_toml_text();
    assert_eq!(
        text,
        "[install]\nprefix_dir = \"~/.local/opt/windsurf\"\nbin_dir = \"~/.local/bin\"\nchannel = \"stable\"\nkeep = 12\ndesktop_integration = true\n\n[changelog]\n\n[network]\nproxy_enabled = false\n"
    );
}

#[test]
fn config_paths_for_file_and_dir() {
    let p = ConfigPaths::for_file("/etc/wm/windman.toml".to_string());
    assert_eq!(p.dir, "/etc/wm");
    assert_eq!(p.config_display(), "/etc/wm/windman.toml");
    let p = ConfigPaths::in_dir("/home/u/.config/windman".to_string());
    assert_eq!(p.file, "/home/u/.config/windman/windman.toml");
    let p = ConfigPaths::from_override(Some("/srv/cfg.toml")).unwrap();
    assert_eq!(p.file, "/srv/cfg.toml");
    assert_eq!(p.dir, "/srv");
}

#[test]
fn join_path_adds_one_separator() {
    assert_eq!(join_path("/a/b", "c"), "/a/b/c");
    assert_eq!(join_path("/a/b/", "c"), "/a/b/c");
    assert_eq!(join_path("", "c"), "c");
    assert_eq!(join_path("/a", "/etc"), "/etc");
}

#[test]
fn expand_tilde_leaves_other_paths_alone() {
    assert_eq!(expand_tilde("/opt/x"), "/opt/x");
    assert_eq!(expand_tilde("~user/x"), "~user/x");
    let e = expand_tilde("~/.local/bin");
    assert!(e.ends_with("/.local/bin"));
}

#[test]
fn resolve_paths_lays_out_under_prefix() {
    let mut cfg = Config::default();
    cfg.install.prefix_dir = "/data/opt/windsurf".to_string();
    cfg.install.bin_dir = "/data/bin".to_string();
    let eff = resolve_paths(&cfg).unwrap();
    assert_eq!(eff.prefix_dir, "/data/opt/windsurf");
    assert_eq!(eff.versions_dir, eff.prefix_dir);
    assert_eq!(eff.current_symlink, "/data/opt/windsurf/current");
    assert_eq!(eff.bin_shim, "/data/bin/windsurf");
    assert!(eff.desktop_file.ends_with("/.local/share/applications/windsurf.desktop"));
    let p = paths_from_expanded("/p", "/b", "/apps", "/icons");
    assert_eq!(p.desktop_file, "/apps/windsurf.desktop");
    assert_eq!(p.icons_dir, "/icons");
}

#[test]
fn shim_names_the_current_link() {
    let s = shim_script("/home/u/.local/opt/windsurf/current");
    assert!(s.starts_with("#!/usr/bin/env bash\n"));
    assert!(s.contains("CURRENT_LINK=\"/home/u/.local/opt/windsurf/current\"\n"));
    assert!(s.contains("exec \"$exe\" \"$@\""));
    assert!(s.ends_with("exit 127\n"));
}

#[test]
fn desktop_entry_points_through_current() {
    let d = desktop_entry("/base/current");
    assert!(d.contains("Name=Windsurf"));
    assert!(d.contains("Icon=windsurf"));
    let exec_line = d.lines().find(|l| l.starts_with("Exec=")).unwrap();
    assert_eq!(exec_line, "Exec=/base/current/Windsurf %U");
}

#[test]
fn releases_page_heading_gives_version() {
    let html = "<html><H2 class=\"v\">\n 1.12.11 </h2><h2>1.12.10</h2>";
    assert_eq!(latest_version_from_releases_html(html).as_deref(), Some("1.12.11"));
    assert!(latest_version_from_releases_html("<h2>soon</h2>").is_none());
}

#[test]
fn latest_version_taken_from_url_when_not_semver() {
    let info = LatestInfo {
        version: "stable".to_string(),
        url: "https://x/Windsurf-linux-x64-1.12.11.tar.gz".to_string(),
    };
    let n = normalize_latest(info);
    assert_eq!(n.version, "1.12.11");
    let info = LatestInfo { version: "1.2.3".to_string(), url: "https://x/9.9.9.tgz".to_string() };
    assert_eq!(normalize_latest(info).version, "1.2.3");
    let info = LatestInfo { version: "stable".to_string(), url: "https://x/latest".to_string() };
    assert_eq!(normalize_latest(info).version, "stable");
}

#[test]
fn download_file_name_is_last_segment() {
    assert_eq!(download_file_name("https://h/a/b/Windsurf-1.2.3.tar.gz"), "Windsurf-1.2.3.tar.gz");
    assert_eq!(download_file_name("plain"), "plain");
    assert_eq!(download_file_name("https://h/dir/"), "");
}

#[test]
fn desktop_flags_decide_integration() {
    assert!(!wants_desktop(true, true, true));
    assert!(wants_desktop(false, true, false));
    assert!(wants_desktop(false, false, true));
    assert!(!wants_desktop(false, false, false));
}

#[test]
fn install_keep_overrides_config() {
    let args = InstallArgs { tar: None, desktop: false, no_desktop: false, keep: Some(5), dry_run: false };
    assert_eq!(args.keep_or(2), 5);
    let args = InstallArgs { keep: None, ..args };
    assert_eq!(args.keep_or(2), 2);
}

#[test]
fn overrides_replace_prefix_and_bin() {
    let cli = Cli {
        config: None,
        prefix: Some("/p".to_string()),
        bin_dir: None,
        verbose: false,
        cmd: Commands::List,
    };
    let mut cfg = Config::default();
    cli.apply_overrides(&mut cfg);
    assert_eq!(cfg.install.prefix_dir, "/p");
    assert_eq!(cfg.install.bin_dir, "~/.local/bin");
}

#[test]
fn update_compares_by_semver() {
    let d = update_decision(&Some("1.12.9".to_string()), "1.12.11").unwrap();
    assert_eq!(d, UpdateDecision::Install);
    let d = update_decision(&Some("1.12.11".to_string()), "1.12.11").unwrap();
    assert_eq!(d, UpdateDecision::UpToDate);
    let d = update_decision(&Some("2.0.0".to_string()), "1.12.11").unwrap();
    assert_eq!(d, UpdateDecision::UpToDate);
    let d = update_decision(&None, "1.0.0").unwrap();
    assert_eq!(d, UpdateDecision::Install);
    let d = update_decision(&Some("garbage".to_string()), "1.0.0").unwrap();
    assert_eq!(d, UpdateDecision::Install);
}

#[test]
fn update_refuses_unparsable_remote_version() {
    match update_decision(&None, "latest") {
        Err(ManagerError::RemoteVersionUnparsable { version }) => assert_eq!(version, "latest"),
        other => panic!("unexpected {:?}", other),
    }
}

#[test]
fn staging_and_temp_names() {
    assert_eq!(staging_name("20250101000000", 4242), ".staging-20250101000000-4242");
    assert_eq!(temp_link_name(4242), ".tmp-4242");
    assert_eq!(temp_link_name(0), ".tmp-0");
}

#[test]
fn api_answer_needs_both_fields() {
    let ok = latest_from_api(" 1.2.3 ".to_string(), "https://x/a.tgz".to_string()).unwrap();
    assert_eq!(ok.version, " 1.2.3 ");
    assert!(latest_from_api("  \t".to_string(), "https://x/a.tgz".to_string()).is_none());
    assert!(latest_from_api("1.2.3".to_string(), "".to_string()).is_none());
    assert!(latest_from_api("\u{3000}\u{a0}\n".to_string(), "https://x".to_string()).is_none());
    assert!(latest_from_api("x".to_string(), " \u{2003}u ".to_string()).is_some());
}
