use codevault::instrument::EntryFileModel;
use codevault::instrument::backup_file_name;
use codevault::job::CompileJob;
use codevault::job::FrontendArtifact;
use codevault::job::JobState;
use codevault::job::NpmInstallPlan;
use codevault::job::ResolvedCompileOptions;
use codevault::job::StartCompileRequest;
use codevault::job::bootstrap_rel_path;
use codevault::job::choose_list;
use codevault::job::escape_quotes_doubled;
use codevault::job::escape_quotes_posix;
use codevault::job::is_bundled_runtime_entry;
use codevault::job::new_bootstrap_file_name;
use codevault::job::node_output_name;
use codevault::job::nuitka_args;
use codevault::job::pick_frontend_output;
use codevault::job::pip_install_args;
use codevault::job::pkg_command_line;
use codevault::job::plan_npm_install;
use codevault::progress::ProgressLog;
use codevault::progress::advance_capped;
use codevault::progress::classify_compiler_line;

fn bare_request() -> StartCompileRequest {
    StartCompileRequest {
        project_path: "\"/tmp/proj\"".to_string(),
        entry_file: "main.py".to_string(),
        output_name: None,
        output_dir: None,
        license_key: None,
        server_url: None,
        onefile: None,
        console: None,
        icon_path: None,
        include_packages: None,
        exclude_packages: None,
        include_data_dirs: None,
        include_data_files: None,
        env_values: None,
        install_requirements: None,
        requirements_path: None,
        build_frontend: None,
        frontend_dir: None,
        create_launcher: None,
        bundle_requirements: None,
        split_frontend: None,
        demo_mode: None,
        demo_duration_minutes: None,
    }
}

#[test]
fn defaults_resolved_once() {
    let opts = ResolvedCompileOptions::resolve(&bare_request());
    assert_eq!(opts.project_path, "/tmp/proj");
    assert_eq!(opts.output_name, "main");
    assert_eq!(opts.license_key, "DEMO");
    assert_eq!(opts.server_url, "http://localhost:8000");
    assert!(opts.onefile);
    assert!(!opts.console);
    assert_eq!(opts.requirements_path, "requirements.txt");
    assert!(!opts.demo_mode);
    assert_eq!(opts.demo_duration_minutes, 60);
    assert_eq!(opts.output_dir, None);
}

#[test]
fn explicit_values_kept() {
    let mut req = bare_request();
    req.output_name = Some("tool".to_string());
    req.output_dir = Some("'/out dir'".to_string());
    req.license_key = Some("K-1".to_string());
    req.onefile = Some(false);
    req.console = Some(true);
    req.demo_mode = Some(true);
    req.demo_duration_minutes = Some(30);
    let opts = ResolvedCompileOptions::resolve(&req);
    assert_eq!(opts.output_name, "tool");
    assert_eq!(opts.output_dir, Some("/out dir".to_string()));
    assert_eq!(opts.license_key, "K-1");
    assert!(!opts.onefile);
    assert!(opts.console);
    assert!(opts.demo_mode);
    assert_eq!(opts.demo_duration_minutes, 30);
    let cred = opts.credential();
    assert_eq!(cred.license_key, "K-1");
    assert_eq!(cred.demo_duration_minutes, 30);
}

#[test]
fn backend_choice_from_entry_suffix() {
    assert!(is_bundled_runtime_entry("server.js"));
    assert!(is_bundled_runtime_entry("Server.JS"));
    assert!(is_bundled_runtime_entry("x.mjs"));
    assert!(is_bundled_runtime_entry("x.cjs"));
    assert!(is_bundled_runtime_entry("x.ts"));
    assert!(!is_bundled_runtime_entry("main.py"));
    assert!(!is_bundled_runtime_entry("js"));
}

#[test]
fn argument_vector_full() {
    let mut req = bare_request();
    req.output_dir = Some("/out".to_string());
    req.icon_path = Some("app.ico".to_string());
    req.bundle_requirements = Some(true);
    let opts = ResolvedCompileOptions::resolve(&req);
    let packages = vec!["core".to_string(), "core.sub".to_string()];
    let excludes = vec!["tests".to_string()];
    let data_dirs = vec!["static".to_string()];
    let data_files = vec!["config.ini".to_string()];
    let dist = "web/dist".to_string();
    let args = nuitka_args(&opts, &packages, &excludes, &data_dirs, &data_files, true, Some(&dist));
    let expected = vec![
        "-m".to_string(),
        "nuitka".to_string(),
        "--standalone".to_string(),
        "--remove-output".to_string(),
        "--onefile".to_string(),
        "--windows-console-mode=disable".to_string(),
        "--output-filename=main.exe".to_string(),
        "--windows-icon-from-ico=app.ico".to_string(),
        "--output-dir=/out".to_string(),
        "--include-package=core".to_string(),
        "--include-package=core.sub".to_string(),
        "--nofollow-import-to=tests".to_string(),
        "--include-data-dir=static=static".to_string(),
        "--include-data-files=config.ini=config.ini".to_string(),
        "--include-data-files=requirements.txt=requirements.txt".to_string(),
        "--include-data-dir=web/dist=static".to_string(),
        "main.py".to_string(),
    ];
    assert_eq!(args, expected);
}

#[test]
fn argument_vector_split_frontend_and_console() {
    let mut req = bare_request();
    req.console = Some(true);
    req.onefile = Some(false);
    req.split_frontend = Some(true);
    let opts = ResolvedCompileOptions::resolve(&req);
    let none: Vec<String> = Vec::new();
    let dist = "web/dist".to_string();
    let args = nuitka_args(&opts, &none, &none, &none, &none, false, Some(&dist));
    assert_eq!(
        args,
        vec![
            "-m".to_string(),
            "nuitka".to_string(),
            "--standalone".to_string(),
            "--remove-output".to_string(),
            "--output-filename=main.exe".to_string(),
            "main.py".to_string(),
        ]
    );
    assert_eq!(args.last().unwrap(), "main.py");
}

#[test]
fn explicit_lists_override_detection() {
    let explicit = Some(vec!["a".to_string()]);
    let detected = vec!["b".to_string()];
    assert_eq!(choose_list(&explicit, detected.clone()), vec!["a".to_string()]);
    assert_eq!(choose_list(&None, detected.clone()), detected);
}

#[test]
fn pip_arguments() {
    assert_eq!(
        pip_install_args("requirements.txt"),
        vec!["install".to_string(), "-r".to_string(), "requirements.txt".to_string()]
    );
}

#[test]
fn npm_plan_cases() {
    assert!(matches!(plan_npm_install(true, false), NpmInstallPlan::RunInstall));
    assert!(matches!(plan_npm_install(false, false), NpmInstallPlan::WarnNoManifest));
    assert!(matches!(plan_npm_install(false, true), NpmInstallPlan::WarnNoManifest));
    assert!(matches!(plan_npm_install(true, true), NpmInstallPlan::AlreadyInstalled));
}

#[test]
fn frontend_output_pick() {
    assert!(matches!(pick_frontend_output(true, true), Some(FrontendArtifact::DistDir)));
    assert!(matches!(pick_frontend_output(false, true), Some(FrontendArtifact::BuildDir)));
    assert!(pick_frontend_output(false, false).is_none());
}

#[test]
fn node_naming_and_commands() {
    assert_eq!(node_output_name("src/server.app.js"), "server.app");
    assert_eq!(node_output_name("a\\b\\tool.ts"), "tool");
    assert_eq!(node_output_name(".hidden"), ".hidden");
    assert_eq!(node_output_name("plain"), "plain");
    assert_eq!(node_output_name("dir/"), "output");
    assert_eq!(escape_quotes_doubled("it's"), "it''s");
    assert_eq!(escape_quotes_posix("it's"), "it'\\''s");
    assert_eq!(bootstrap_rel_path("b.js", true), ".\\b.js");
    assert_eq!(bootstrap_rel_path("b.js", false), "./b.js");
    assert_eq!(
        pkg_command_line(".\\b.js", "node18-win-x64", "C:\\out\\x.exe"),
        "npx -y pkg '.\\b.js' --target node18-win-x64 --output 'C:\\out\\x.exe'"
    );
}

#[test]
fn bootstrap_names_are_fresh_and_shaped() {
    let a = new_bootstrap_file_name();
    let b = new_bootstrap_file_name();
    assert!(a.starts_with("_cv_bootstrap_"));
    assert!(a.ends_with(".js"));
    assert_eq!(a.len(), "_cv_bootstrap_".len() + 8 + ".js".len());
    assert_ne!(a, b);
}

#[test]
fn backup_name_flattens_paths() {
    assert_eq!(backup_file_name("main.py"), "_backup_main.py");
    assert_eq!(backup_file_name("src/main.js"), "_backup_src_main.js");
    assert_eq!(backup_file_name("a\\b/c.py"), "_backup_a_b_c.py");
}

#[test]
fn entry_file_restored_after_instrumentation() {
    let original = b"print('hello')\n".to_vec();
    let mut model = EntryFileModel::new(original.clone());
    model.inject(&b"# bootstrap\n".to_vec());
    assert_ne!(model.content, original);
    model.prepend(&b"# env defaults\n".to_vec());
    model.prepend(&b"# dependency installer\n".to_vec());
    model.restore();
    assert_eq!(model.content, original);
    assert!(model.backup.is_none());
    // a second restore without a backup changes nothing
    model.restore();
    assert_eq!(model.content, original);
}

#[test]
fn injection_prepends_fragment() {
    let mut model = EntryFileModel::new(b"body".to_vec());
    model.inject(&b"head:".to_vec());
    assert_eq!(model.content, b"head:body".to_vec());
    assert_eq!(model.backup, Some(b"body".to_vec()));
}

#[test]
fn progress_is_monotone_and_single_result() {
    let mut log = ProgressLog::new("job-1".to_string());
    log.emit(10, "start".to_string(), "init".to_string());
    log.emit(5, "late".to_string(), "init".to_string());
    log.emit(90, "almost".to_string(), "compiling".to_string());
    log.emit(100, "done".to_string(), "complete".to_string());
    let figures: Vec<u32> = log.events.iter().map(|e| e.progress).collect();
    assert_eq!(figures, vec![10, 10, 90, 100]);
    for w in figures.windows(2) {
        assert!(w[0] <= w[1]);
    }
    for f in &figures {
        assert!(*f <= 100);
    }
    assert!(log.result.is_none());
    log.finish(true, Some("/out/a.exe".to_string()), None);
    let res = log.result.as_ref().unwrap();
    assert!(res.success);
    assert_eq!(res.job_id, "job-1");
    assert_eq!(res.output_path, Some("/out/a.exe".to_string()));
}

#[test]
fn classifier_stages_and_steps() {
    let (stage, p) = classify_compiler_line("Nuitka:INFO: doing work", 10);
    assert_eq!(stage, "processing");
    assert_eq!(p, 12);
    let (stage, p) = classify_compiler_line("Nuitka:WARNING: careful", 12);
    assert_eq!(stage, "warning");
    assert_eq!(p, 12);
    let (stage, p) = classify_compiler_line("Nuitka:ERROR: broken", 12);
    assert_eq!(stage, "error");
    assert_eq!(p, 12);
    let (stage, p) = classify_compiler_line("some other line", 12);
    assert_eq!(stage, "compiling");
    assert_eq!(p, 13);
    let (_, p) = classify_compiler_line("Nuitka:INFO: near the end", 89);
    assert_eq!(p, 90);
    assert_eq!(advance_capped(90, 2), 90);
    assert_eq!(advance_capped(50, 2), 52);
}

#[test]
fn job_lifecycle_success_path() {
    let mut job = CompileJob::begin();
    assert_eq!(job.id.len(), 36);
    job.note_progress(0, "Starting compilation...".to_string(), "init".to_string());
    job.enter(JobState::Preparing);
    job.enter(JobState::Injecting);
    job.mark_injected();
    job.enter(JobState::Compiling);
    job.note_progress(50, "halfway".to_string(), "compiling".to_string());
    job.enter(JobState::Finalizing);
    job.mark_restored();
    job.complete("/out/main.exe".to_string());
    assert!(matches!(job.state, JobState::Complete));
    assert!(job.restored);
    let res = job.log.result.as_ref().unwrap();
    assert!(res.success);
    assert_eq!(res.output_path, Some("/out/main.exe".to_string()));
}

#[test]
fn job_lifecycle_failure_path_restores_first() {
    let mut job = CompileJob::begin();
    job.enter(JobState::Injecting);
    job.mark_injected();
    job.enter(JobState::Compiling);
    job.mark_restored();
    job.fail("Compilation failed".to_string());
    assert!(matches!(job.state, JobState::Failed));
    assert!(job.restored);
    let res = job.log.result.as_ref().unwrap();
    assert!(!res.success);
    assert_eq!(res.error_message, Some("Compilation failed".to_string()));
    assert_eq!(res.output_path, None);
}

#[test]
fn job_failure_before_injection_needs_no_restore() {
    let mut job = CompileJob::begin();
    job.enter(JobState::Preparing);
    job.fail("Project path does not exist".to_string());
    assert!(matches!(job.state, JobState::Failed));
    assert!(!job.injected);
}
