use codevault::backend::BackendConfig;
use codevault::backend::ChildProbe;
use codevault::backend::ProbeStep;
use codevault::backend::SidecarProbe;
use codevault::backend::SidecarStopAction;
use codevault::backend::accepts_python_probe;
use codevault::backend::backend_status;
use codevault::backend::get_backend_url;
use codevault::backend::is_backend_running;
use codevault::backend::parse_port;
use codevault::backend::port_file_path;
use codevault::backend::python_candidates;
use codevault::backend::sidecar_stop_plan;
use codevault::remote::AppSettings;
use codevault::remote::CreateProjectRequest;
use codevault::remote::InstallerBuildRequest;
use codevault::remote::create_project;
use codevault::remote::default_compiler_invocation;
use codevault::remote::interpret_build_reply;
use codevault::remote::project_download_dir;
use codevault::remote::project_download_url;
use codevault::remote::resolve_installer_payload;
use codevault::tools::interpret_ico_conversion;
use codevault::tools::interpret_nsis_probe;
use codevault::tools::nsis_candidate_paths;
use codevault::tools::nuitka_install_outcome;
use codevault::tools::parse_node_probe;
use codevault::tools::parse_npm_probe;
use codevault::tools::parse_nuitka_probe;
use codevault::tools::parse_obfuscator_probe;
use codevault::tools::parse_pkg_probe;
use codevault::tools::parse_python_probe;
use codevault::tools::parse_version_output;
use codevault::tools::pillow_install_outcome;
use codevault::tools::pkg_install_outcome;

#[test]
fn backend_paths_and_url() {
    let cfg = BackendConfig::resolve(Some("/data".to_string()));
    assert_eq!(cfg.port, 8765);
    assert_eq!(cfg.log_dir, "/data/license-wrapper/logs");
    let cfg2 = BackendConfig::resolve(None);
    assert_eq!(cfg2.log_dir, "./license-wrapper/logs");
    assert_eq!(
        port_file_path(Some("/data".to_string())),
        "/data/license-wrapper/logs/backend.port"
    );
    assert_eq!(get_backend_url(Some(9005)), "http://127.0.0.1:9005");
    assert_eq!(get_backend_url(None), "http://127.0.0.1:8765");
}

#[test]
fn port_file_reading() {
    assert_eq!(parse_port("8080\n"), Some(8080));
    assert_eq!(parse_port("  9000  "), Some(9000));
    assert_eq!(parse_port("none"), None);
    assert_eq!(parse_port(""), None);
}

#[test]
fn running_check() {
    assert!(is_backend_running(Some(ChildProbe::StillRunning), None, false));
    assert!(!is_backend_running(Some(ChildProbe::Exited), Some(80), true));
    assert!(!is_backend_running(Some(ChildProbe::Unknown), Some(80), true));
    assert!(is_backend_running(None, Some(80), true));
    assert!(!is_backend_running(None, Some(80), false));
    assert!(!is_backend_running(None, None, true));
}

#[test]
fn readiness_probe_fails_closed() {
    let mut probe = SidecarProbe::new(3);
    assert!(matches!(probe.step(None, false), ProbeStep::Retry));
    assert!(matches!(probe.step(Some(8080), false), ProbeStep::Retry));
    match probe.step(None, false) {
        ProbeStep::GiveUp => {}
        _ => panic!("the third miss of three must give up"),
    }
    let mut quick = SidecarProbe::new(2);
    match quick.step(Some(8080), true) {
        ProbeStep::Ready(p) => assert_eq!(p, 8080),
        _ => panic!("an answering port is readiness"),
    }
}

#[test]
fn stop_plan_order() {
    let with_handle = sidecar_stop_plan(true);
    assert_eq!(with_handle.len(), 4);
    assert!(matches!(with_handle[0], SidecarStopAction::TerminateChild));
    assert!(matches!(with_handle[1], SidecarStopAction::AwaitExit));
    assert!(matches!(with_handle[2], SidecarStopAction::ClearHandle));
    assert!(matches!(with_handle[3], SidecarStopAction::RemovePortFile));
    let without = sidecar_stop_plan(false);
    assert_eq!(without.len(), 1);
    assert!(matches!(without[0], SidecarStopAction::RemovePortFile));
}

#[test]
fn status_report() {
    let s = backend_status(true, Some(9001));
    assert!(s.running);
    assert_eq!(s.port, Some(9001));
    assert_eq!(s.url, "http://127.0.0.1:9001");
}

#[test]
fn interpreter_lookup() {
    assert_eq!(
        python_candidates(),
        vec!["python".to_string(), "python3".to_string(), "py".to_string()]
    );
    assert!(accepts_python_probe("Python 3.12.1"));
    assert!(!accepts_python_probe("Python 2.7.18"));
}

#[test]
fn python_probe_parsing() {
    let s = parse_python_probe(true, "Python 3.12.1\n", "", Some("/usr/bin/python\n"));
    assert!(s.installed);
    assert_eq!(s.version, Some("3.12.1".to_string()));
    assert_eq!(s.path, Some("/usr/bin/python".to_string()));
    let via_stderr = parse_python_probe(true, "", "Python 3.8.0\n", None);
    assert_eq!(via_stderr.version, Some("3.8.0".to_string()));
    let missing = parse_python_probe(false, "", "", None);
    assert!(!missing.installed);
    assert_eq!(missing.version, None);
}

#[test]
fn tool_probe_parsing() {
    let n = parse_nuitka_probe(true, "1.9.6\nCommercial: None\n");
    assert_eq!(n.version, Some("1.9.6".to_string()));
    assert!(!parse_nuitka_probe(false, "").installed);
    assert_eq!(parse_version_output(true, " 1.9.6 \n"), Ok("1.9.6".to_string()));
    assert_eq!(parse_version_output(false, ""), Err("Nuitka not found".to_string()));
    let node = parse_node_probe(true, "v20.11.0\n", Some("/usr/bin/node\nother\n"));
    assert_eq!(node.version, Some("20.11.0".to_string()));
    assert_eq!(node.path, Some("/usr/bin/node".to_string()));
    let pkg = parse_pkg_probe(true, None);
    assert_eq!(pkg.version, Some("via npx".to_string()));
    let pkg2 = parse_pkg_probe(true, Some("5.8.1\n"));
    assert_eq!(pkg2.version, Some("5.8.1".to_string()));
    assert!(!parse_pkg_probe(false, None).installed);
    assert_eq!(parse_npm_probe(true, "10.2.4\n").version, Some("10.2.4".to_string()));
    assert_eq!(parse_obfuscator_probe(true, "4.1.0\n").version, Some("4.1.0".to_string()));
}

#[test]
fn nsis_probe_parsing() {
    let candidates = nsis_candidate_paths();
    assert_eq!(candidates.len(), 2);
    assert!(candidates[0].ends_with("makensis.exe"));
    let found = interpret_nsis_probe(
        Some("C:\\Program Files\\NSIS\\makensis.exe".to_string()),
        None,
        Some("v3.09\n"),
    );
    assert!(found.installed);
    assert_eq!(found.version, Some("v3.09".to_string()));
    let via_lookup = interpret_nsis_probe(None, Some("C:\\nsis\\makensis.exe\n"), None);
    assert!(via_lookup.installed);
    assert_eq!(via_lookup.path, Some("C:\\nsis\\makensis.exe".to_string()));
    assert_eq!(via_lookup.version, None);
    let absent = interpret_nsis_probe(None, None, None);
    assert!(!absent.installed);
}

#[test]
fn install_outcomes() {
    assert_eq!(
        nuitka_install_outcome(true, "done", ""),
        Ok("Nuitka installed successfully!\ndone".to_string())
    );
    assert_eq!(
        nuitka_install_outcome(false, "", "no network"),
        Err("Installation failed: no network".to_string())
    );
    assert_eq!(
        pillow_install_outcome(true, ""),
        Ok("Pillow installed successfully!".to_string())
    );
    assert_eq!(
        pillow_install_outcome(false, "denied"),
        Err("Installation failed: denied".to_string())
    );
    assert!(pkg_install_outcome(true).unwrap().starts_with("pkg is available via npx!"));
    assert_eq!(
        pkg_install_outcome(false),
        Err("npx not found. Please reinstall Node.js to get npx.".to_string())
    );
}

#[test]
fn ico_conversion_outcomes() {
    assert_eq!(
        interpret_ico_conversion(true, "/tmp/a.ico", ""),
        Ok("/tmp/a.ico".to_string())
    );
    assert_eq!(
        interpret_ico_conversion(false, "/tmp/a.ico", "No module named 'PIL' was found"),
        Err("Pillow not installed. Run: pip install Pillow".to_string())
    );
    assert_eq!(
        interpret_ico_conversion(false, "/tmp/a.ico", "broken image"),
        Err("Conversion failed: broken image".to_string())
    );
}

#[test]
fn installer_payload_defaults() {
    let req = InstallerBuildRequest {
        project_path: "/proj".to_string(),
        entry_file: "main.py".to_string(),
        project_name: "Tool".to_string(),
        project_version: None,
        publisher: None,
        language: "python".to_string(),
        license_key: None,
        server_url: None,
        license_mode: None,
        distribution_type: "installer".to_string(),
        create_desktop_shortcut: None,
        create_start_menu: None,
        output_dir: None,
    };
    let p = resolve_installer_payload(&req);
    assert_eq!(p.project_version, "1.0.0");
    assert_eq!(p.publisher, "Unknown Publisher");
    assert_eq!(p.license_key, "GENERIC_BUILD");
    assert_eq!(p.api_url, "http://localhost:8000");
    assert_eq!(p.license_mode, "generic");
    assert!(p.create_desktop_shortcut);
    assert!(p.create_start_menu);
    assert_eq!(p.output_dir, "/proj/output");
    assert_eq!(p.source_dir, "/proj");
}

#[test]
fn build_reply_interpretation() {
    assert_eq!(
        interpret_build_reply(
            Some(true),
            Some("/out/i.exe".to_string()),
            Some("i.exe".to_string()),
            None
        ),
        Ok(("/out/i.exe".to_string(), "i.exe".to_string()))
    );
    assert_eq!(
        interpret_build_reply(Some(true), None, None, None),
        Ok(("unknown".to_string(), "unknown".to_string()))
    );
    assert_eq!(
        interpret_build_reply(Some(false), None, None, Some("bad request".to_string())),
        Err("bad request".to_string())
    );
    assert_eq!(interpret_build_reply(None, None, None, None), Err("Unknown error".to_string()));
}

#[test]
fn download_locations() {
    assert_eq!(
        project_download_url("http://localhost:8000", "p-1"),
        "http://localhost:8000/api/v1/projects/p-1/download-source"
    );
    assert_eq!(
        project_download_dir("/tmp", "p-1"),
        "/tmp/license_wrapper_projects/p-1"
    );
}

#[test]
fn project_creation() {
    let p = create_project(CreateProjectRequest {
        name: "demo".to_string(),
        description: Some("d".to_string()),
        local_path: None,
    });
    assert_eq!(p.name, "demo");
    assert_eq!(p.description, Some("d".to_string()));
    assert_eq!(p.entry_file, None);
    assert!(!p.cloud_synced);
    assert_eq!(p.created_at, p.updated_at);
    assert_eq!(p.id.len(), 36);
    let q = create_project(CreateProjectRequest {
        name: "demo2".to_string(),
        description: None,
        local_path: None,
    });
    assert_ne!(p.id, q.id);
}

#[test]
fn settings_defaults() {
    let s = AppSettings::default();
    assert_eq!(s.theme, "dark");
    assert_eq!(s.api_url, "https://codevault.parth7.me/api/v1");
    assert_eq!(s.nuitka_path, "");
    assert_eq!(s.python_path, None);
    assert_eq!(default_compiler_invocation(), Some("nuitka".to_string()));
}
