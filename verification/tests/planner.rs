use codevault::frontend::FrontendProbe;
use codevault::frontend::detect_frontend_in_dir;
use codevault::frontend::detect_frontend_framework;
use codevault::plan::DirProbe;
use codevault::plan::FileProbe;
use codevault::plan::ProjectListing;
use codevault::plan::detect_data_directories;
use codevault::plan::detect_entry_candidates;
use codevault::plan::detect_python_packages;
use codevault::plan::env_keys;
use codevault::plan::has_main_guard;
use codevault::plan::is_data_directory;
use codevault::plan::parse_env;
use codevault::plan::parse_requirements;
use codevault::plan::scan_project_structure;

#[test]
fn requirements_basic() {
    let names = parse_requirements("flask==2.0\n# comment\nrequests>=2\n\n");
    assert_eq!(names, vec!["flask".to_string(), "requests".to_string()]);
}

#[test]
fn requirements_delimiters_and_extras() {
    let names = parse_requirements("uvicorn[standard]>=0.22\n  numpy != 1.24\npkg<3\nplain\n");
    assert_eq!(
        names,
        vec![
            "uvicorn".to_string(),
            "numpy".to_string(),
            "pkg".to_string(),
            "plain".to_string()
        ]
    );
}

#[test]
fn requirements_empty_and_comments_only() {
    assert_eq!(parse_requirements(""), Vec::<String>::new());
    assert_eq!(parse_requirements("# a\n   \n\t\n# b"), Vec::<String>::new());
}

#[test]
fn env_basic() {
    let entries = parse_env("KEY1=value1\nKEY2=\"quoted value\"\n");
    assert_eq!(entries.len(), 2);
    assert_eq!(entries[0].key, "KEY1");
    assert_eq!(entries[0].value, "value1");
    assert_eq!(entries[1].key, "KEY2");
    assert_eq!(entries[1].value, "quoted value");
}

#[test]
fn env_quotes_comments_and_missing_equals() {
    let entries = parse_env("# c\nA = ' spaced '\nnoequals\nB=\n C = \"x\" \n");
    assert_eq!(entries.len(), 3);
    assert_eq!(entries[0].key, "A");
    assert_eq!(entries[0].value, " spaced ");
    assert_eq!(entries[1].key, "B");
    assert_eq!(entries[1].value, "");
    assert_eq!(entries[2].key, "C");
    assert_eq!(entries[2].value, "x");
    let keys = env_keys(&entries);
    assert_eq!(keys, vec!["A".to_string(), "B".to_string(), "C".to_string()]);
}

#[test]
fn env_duplicate_keys_keep_line_order() {
    let entries = parse_env("K=1\nK=2\n");
    assert_eq!(entries.len(), 2);
    assert_eq!(entries[1].value, "2");
}

#[test]
fn packages_from_marker_dirs() {
    let dirs = vec![
        "app".to_string(),
        "app/sub".to_string(),
        "__pycache__".to_string(),
        ".hidden".to_string(),
        "lib\\win".to_string(),
    ];
    let packages = detect_python_packages(&dirs);
    assert_eq!(
        packages,
        vec!["app".to_string(), "app.sub".to_string(), "lib.win".to_string()]
    );
}

#[test]
fn data_directory_rules() {
    assert!(is_data_directory("templates", true, true));
    assert!(is_data_directory("Config", true, true));
    assert!(is_data_directory("stuff", false, true));
    assert!(!is_data_directory("stuff", true, true));
    assert!(!is_data_directory("assets", false, false));
    assert!(!is_data_directory(".git", false, true));
    assert!(!is_data_directory("__pycache__", false, true));
    assert!(!is_data_directory("venv", false, true));
    assert!(!is_data_directory("node_modules", false, true));
}

#[test]
fn data_directories_filtered() {
    let probes = vec![
        DirProbe { name: "static".to_string(), has_package_marker: false, has_files: true },
        DirProbe { name: "app".to_string(), has_package_marker: true, has_files: true },
        DirProbe { name: "empty".to_string(), has_package_marker: false, has_files: false },
    ];
    assert_eq!(detect_data_directories(&probes), vec!["static".to_string()]);
}

#[test]
fn entry_candidates_ranking() {
    let probes = vec![
        FileProbe { name: "main.py".to_string(), has_main_guard: false },
        FileProbe { name: "tool.py".to_string(), has_main_guard: true },
        FileProbe { name: "app.py".to_string(), has_main_guard: false },
        FileProbe { name: "extra.js".to_string(), has_main_guard: false },
        FileProbe { name: "notes.txt".to_string(), has_main_guard: true },
        FileProbe { name: "helper.py".to_string(), has_main_guard: false },
    ];
    let ranked = detect_entry_candidates(&probes);
    assert_eq!(
        ranked,
        vec![
            "app.py".to_string(),
            "main.py".to_string(),
            "tool.py".to_string(),
            "extra.js".to_string()
        ]
    );
}

#[test]
fn main_guard_detection() {
    assert!(has_main_guard("x = 1\nif __name__ == '__main__':\n    run()\n"));
    assert!(!has_main_guard("print('no guard here')"));
}

#[test]
fn frontend_react_manifest() {
    let manifest = "{\"dependencies\":{\"react\":\"^18.0.0\"}}";
    let info = detect_frontend_in_dir("web", manifest, true).unwrap();
    assert_eq!(info.framework, "react");
    assert_eq!(info.build_command, "npm run build");
    assert_eq!(info.path, "web");
    assert!(info.has_dist);
}

#[test]
fn frontend_order_and_exact_names() {
    let vue = detect_frontend_in_dir(".", "{\"devDependencies\":{\"vue\":\"3\"}}", false).unwrap();
    assert_eq!(vue.framework, "vue");
    let ng = detect_frontend_in_dir(
        ".",
        "{\"dependencies\":{\"@angular/core\":\"17\"}}",
        false,
    )
    .unwrap();
    assert_eq!(ng.framework, "angular");
    assert_eq!(ng.build_command, "ng build");
    let next = detect_frontend_in_dir(".", "{\"dependencies\":{\"next\":\"14\"}}", false).unwrap();
    assert_eq!(next.framework, "next");
    let vite = detect_frontend_in_dir(".", "{\"devDependencies\":{\"vite\":\"5\"}}", false)
        .unwrap();
    assert_eq!(vite.framework, "vite");
    // a name merely containing the exact-match markers does not count
    assert!(detect_frontend_in_dir(".", "{\"dependencies\":{\"nextish\":\"1\"}}", false).is_none());
    // react wins over vite when both are present
    let both = detect_frontend_in_dir(
        ".",
        "{\"dependencies\":{\"react\":\"18\"},\"devDependencies\":{\"vite\":\"5\"}}",
        false,
    )
    .unwrap();
    assert_eq!(both.framework, "react");
}

#[test]
fn frontend_invalid_json_and_no_framework() {
    assert!(detect_frontend_in_dir(".", "not json at all", false).is_none());
    assert!(detect_frontend_in_dir(".", "{\"dependencies\":{\"lodash\":\"4\"}}", false).is_none());
    assert!(detect_frontend_in_dir(".", "{}", false).is_none());
}

#[test]
fn frontend_probe_prefers_root() {
    let probe = FrontendProbe {
        root_dir: "proj".to_string(),
        root_manifest: Some("{\"dependencies\":{\"react\":\"18\"}}".to_string()),
        root_has_dist: false,
        sub_dir: "proj/frontend".to_string(),
        sub_manifest: Some("{\"dependencies\":{\"vue\":\"3\"}}".to_string()),
        sub_has_dist: true,
    };
    let info = detect_frontend_framework(&probe).unwrap();
    assert_eq!(info.framework, "react");
    assert_eq!(info.path, "proj");
    let sub_only = FrontendProbe {
        root_dir: "proj".to_string(),
        root_manifest: None,
        root_has_dist: false,
        sub_dir: "proj/frontend".to_string(),
        sub_manifest: Some("{\"dependencies\":{\"vue\":\"3\"}}".to_string()),
        sub_has_dist: true,
    };
    let info2 = detect_frontend_framework(&sub_only).unwrap();
    assert_eq!(info2.framework, "vue");
    assert_eq!(info2.path, "proj/frontend");
    assert!(info2.has_dist);
}

#[test]
fn scan_assembles_all_parts() {
    let listing = ProjectListing {
        package_dirs: vec!["core".to_string()],
        dir_probes: vec![DirProbe {
            name: "data".to_string(),
            has_package_marker: false,
            has_files: true,
        }],
        file_probes: vec![FileProbe { name: "main.py".to_string(), has_main_guard: false }],
        requirements: Some("flask==2.0\nrequests\n".to_string()),
        env_file: Some("PORT=8000\n".to_string()),
        frontend: FrontendProbe {
            root_dir: ".".to_string(),
            root_manifest: Some("{\"dependencies\":{\"react\":\"18\"}}".to_string()),
            root_has_dist: false,
            sub_dir: "frontend".to_string(),
            sub_manifest: None,
            sub_has_dist: false,
        },
    };
    let s = scan_project_structure(&listing);
    assert_eq!(s.packages, vec!["core".to_string()]);
    assert_eq!(s.data_dirs, vec!["data".to_string()]);
    assert_eq!(s.entry_candidates, vec!["main.py".to_string()]);
    assert!(s.has_requirements);
    assert_eq!(s.requirements_packages, vec!["flask".to_string(), "requests".to_string()]);
    assert!(s.has_env);
    assert_eq!(s.env_keys, vec!["PORT".to_string()]);
    assert!(s.has_frontend);
    assert_eq!(s.frontend_framework, Some("react".to_string()));
}

#[test]
fn scan_of_bare_listing() {
    let listing = ProjectListing {
        package_dirs: vec![],
        dir_probes: vec![],
        file_probes: vec![],
        requirements: None,
        env_file: None,
        frontend: FrontendProbe {
            root_dir: ".".to_string(),
            root_manifest: None,
            root_has_dist: false,
            sub_dir: "frontend".to_string(),
            sub_manifest: None,
            sub_has_dist: false,
        },
    };
    let s = scan_project_structure(&listing);
    assert!(!s.has_requirements);
    assert!(!s.has_env);
    assert!(!s.has_frontend);
    assert_eq!(s.frontend_framework, None);
    assert!(s.packages.is_empty());
    assert!(s.requirements_packages.is_empty());
}
