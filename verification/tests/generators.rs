use codevault::fragments::bootstrap_file_name;
use codevault::fragments::bootstrap_fragment;
use codevault::fragments::demo_fragment;
use codevault::fragments::deps_installer_fragment;
use codevault::fragments::entry_require_path;
use codevault::fragments::env_fragment;
use codevault::fragments::escape_env_value;
use codevault::fragments::ico_conversion_script;
use codevault::fragments::instrumentation_fragment;
use codevault::fragments::js_license_fragment;
use codevault::fragments::launcher_file_name;
use codevault::fragments::launcher_script;
use codevault::fragments::license_fragment;
use codevault::fragments::needs_deps_installer;
use codevault::fragments::short_id;
use codevault::fragments::validate_endpoint_url;
use codevault::plan::EnvEntry;
use codevault::protocol::EmbeddedCredential;

#[test]
fn env_value_escaping() {
    assert_eq!(escape_env_value("plain"), "plain");
    assert_eq!(escape_env_value("a\\b"), "a\\\\b");
    assert_eq!(escape_env_value("say \"hi\""), "say \\\"hi\\\"");
    assert_eq!(escape_env_value("\\\""), "\\\\\\\"");
}

#[test]
fn env_fragment_exact() {
    let entries = vec![EnvEntry { key: "PORT".to_string(), value: "80\"80".to_string() }];
    let expected = "# ============ BAKED ENVIRONMENT VARIABLES ============\nimport os as _env_os\n_env_os.environ.setdefault(\"PORT\", \"80\\\"80\")\n# ============ END BAKED ENVIRONMENT ============\n\n";
    assert_eq!(env_fragment(&entries), expected);
}

#[test]
fn deps_installer_idempotence_marker() {
    let fragment = deps_installer_fragment();
    assert!(fragment.contains("AUTO-DEPENDENCY INSTALLER"));
    assert!(needs_deps_installer("print('x')"));
    assert!(!needs_deps_installer(&fragment));
    let once = format!("{}{}", fragment, "print('x')");
    assert!(!needs_deps_installer(&once));
}

#[test]
fn license_fragment_embeds_credentials() {
    let text = license_fragment("KEY-42", "https://srv.example");
    assert!(text.contains("LICENSE_KEY = \"KEY-42\""));
    assert!(text.contains("SERVER_URL = \"https://srv.example\""));
    assert!(text.contains("_lw_hash.md5('KEY-42'.encode())"));
    assert!(text.contains("'license_key': 'KEY-42',"));
    assert!(text.contains("_LW_GRACE_PERIOD = 24 * 60 * 60"));
    assert!(text.contains("/api/v1/license/validate"));
    assert!(text.contains("if LICENSE_KEY == \"DEMO\" or LICENSE_KEY == \"\":"));
}

#[test]
fn demo_fragment_embeds_duration() {
    let text = demo_fragment(45);
    assert!(text.contains("DEMO_DURATION_SECONDS = 45 * 60"));
    assert!(text.contains("minutes: 45"));
    assert!(text.contains("DEMO EXPIRED"));
}

#[test]
fn combined_instrumentation_respects_demo_toggle() {
    let with_demo = instrumentation_fragment(&EmbeddedCredential {
        license_key: "K".to_string(),
        server_url: "http://s".to_string(),
        demo_mode: true,
        demo_duration_minutes: 30,
    });
    assert!(with_demo.contains("LICENSE WRAPPER"));
    assert!(with_demo.contains("DEMO MODE - TIME LIMITED"));
    let without = instrumentation_fragment(&EmbeddedCredential {
        license_key: "K".to_string(),
        server_url: "http://s".to_string(),
        demo_mode: true,
        demo_duration_minutes: 0,
    });
    assert!(!without.contains("DEMO MODE - TIME LIMITED"));
    let off = instrumentation_fragment(&EmbeddedCredential {
        license_key: "K".to_string(),
        server_url: "http://s".to_string(),
        demo_mode: false,
        demo_duration_minutes: 60,
    });
    assert!(!off.contains("DEMO MODE - TIME LIMITED"));
}

#[test]
fn js_wrapper_and_bootstrap() {
    let api = validate_endpoint_url("http://localhost:8000");
    assert_eq!(api, "http://localhost:8000/api/v1/license/validate");
    let wrapper = js_license_fragment("JSKEY", &api);
    assert!(wrapper.contains("const LICENSE_KEY = 'JSKEY';"));
    assert!(wrapper.contains("const API_URL = 'http://localhost:8000/api/v1/license/validate';"));
    assert_eq!(entry_require_path("src\\app.js"), "./src/app.js");
    assert_eq!(entry_require_path("app.js"), "./app.js");
    let boot = bootstrap_fragment("./src/app.js");
    assert!(boot.contains("require('./src/app.js');"));
    assert!(boot.contains("require('./_cv_license_wrapper')"));
    assert_eq!(short_id("123e4567-e89b-42d3-a456-426614174000"), "123e4567");
    assert_eq!(short_id("ab-c"), "abc");
    assert_eq!(bootstrap_file_name("123e4567"), "_cv_bootstrap_123e4567.js");
}

#[test]
fn launcher_variants() {
    let full = launcher_script("Tool", "Tool.exe", Some("C:\\out\\frontend"));
    assert!(full.starts_with("@echo off"));
    assert!(full.contains("title Tool - Application Launcher"));
    assert!(full.contains("start /B \"Backend\" \"%SCRIPT_DIR%Tool.exe\""));
    assert!(full.contains("cd /d \"C:\\out\\frontend\""));
    assert!(full.contains("taskkill /IM \"Tool.exe\" /F 2>nul"));
    assert!(full.contains("npx serve -s . -l 3000 -n"));
    let simple = launcher_script("Tool", "Tool.exe", None);
    assert!(simple.starts_with("@echo off"));
    assert!(simple.contains("title Tool\n"));
    assert!(simple.contains("\"%SCRIPT_DIR%Tool.exe\""));
    assert!(!simple.contains("Frontend"));
    assert_eq!(launcher_file_name("Tool"), "Tool_launcher.bat");
}

#[test]
fn ico_script_embeds_paths() {
    let script = ico_conversion_script("/tmp/logo.png", "/tmp/logo.ico");
    assert!(script.contains("Image.open(r'/tmp/logo.png')"));
    assert!(script.contains("img.save(r'/tmp/logo.ico', format='ICO'"));
    assert!(script.contains("(256,256)"));
}
