//! The compilation job: the request with its documented defaults
//! resolved once at job start, the decisions the pipeline makes
//! between its outside steps, and the job state machine with its
//! restore guarantee.
use vstd::prelude::*;

use crate::plan::EnvEntry;
use crate::progress::ProgressLog;
use crate::protocol::EmbeddedCredential;
use crate::text::eq_ignore_case_spec;
use crate::text::lower_char;
use crate::text::lower_char_spec;
use crate::text::replace_all;
use crate::text::replace_all_spec;
use crate::text::strip_char_spec;
use crate::text::strip_char_str;

verus! {

/// A build request as the caller hands it in; every optional field
/// has a documented default.
pub struct StartCompileRequest {
    pub project_path: String,
    pub entry_file: String,
    pub output_name: Option<String>,
    pub output_dir: Option<String>,
    pub license_key: Option<String>,
    pub server_url: Option<String>,
    pub onefile: Option<bool>,
    pub console: Option<bool>,
    pub icon_path: Option<String>,
    pub include_packages: Option<Vec<String>>,
    pub exclude_packages: Option<Vec<String>>,
    pub include_data_dirs: Option<Vec<String>>,
    pub include_data_files: Option<Vec<String>>,
    pub env_values: Option<Vec<EnvEntry>>,
    pub install_requirements: Option<bool>,
    pub requirements_path: Option<String>,
    pub build_frontend: Option<bool>,
    pub frontend_dir: Option<String>,
    pub create_launcher: Option<bool>,
    pub bundle_requirements: Option<bool>,
    pub split_frontend: Option<bool>,
    pub demo_mode: Option<bool>,
    pub demo_duration_minutes: Option<u32>,
}

/// The request with every default applied, resolved once at job
/// start.
pub struct ResolvedCompileOptions {
    pub project_path: String,
    pub entry_file: String,
    pub output_name: String,
    pub output_dir: Option<String>,
    pub license_key: String,
    pub server_url: String,
    pub onefile: bool,
    pub console: bool,
    pub icon_path: Option<String>,
    pub install_requirements: bool,
    pub requirements_path: String,
    pub build_frontend: bool,
    pub frontend_dir: Option<String>,
    pub create_launcher: bool,
    pub bundle_requirements: bool,
    pub split_frontend: bool,
    pub demo_mode: bool,
    pub demo_duration_minutes: u32,
}

/// Surrounding quotes dropped from a path, as callers on some
/// platforms hand them in.
pub open spec fn spec_unquote(p: Seq<char>) -> Seq<char> {
    strip_char_spec(strip_char_spec(p, '"'), '\'')
}

fn unquote(p: &str) -> (r: String)
    ensures
        r@ == spec_unquote(p@),
{
    strip_char_str(strip_char_str(p, '"'), '\'').to_owned()
}

/// The default output name: the entry file's name with the script
/// extension dropped wherever it occurs.
pub open spec fn spec_default_output_name(entry: Seq<char>) -> Seq<char> {
    replace_all_spec(entry, ".py"@, ""@)
}

impl ResolvedCompileOptions {
    /// Apply the documented defaults: sentinel license key, local
    /// validation server, one-file output without a console window,
    /// the conventional manifest path, and an hour of demo time.
    pub fn resolve(req: &StartCompileRequest) -> (r: ResolvedCompileOptions)
        ensures
            r.project_path@ == spec_unquote(req.project_path@),
            r.entry_file@ == req.entry_file@,
            (req.output_name matches Some(n) ==> r.output_name@ == n@),
            (req.output_name is None ==> r.output_name@ == spec_default_output_name(
                req.entry_file@,
            )),
            (req.output_dir matches Some(d) ==> r.output_dir matches Some(rd) && rd@
                == spec_unquote(d@)),
            (req.output_dir is None ==> r.output_dir is None),
            (req.license_key matches Some(k) ==> r.license_key@ == k@),
            (req.license_key is None ==> r.license_key@ == "DEMO"@),
            (req.server_url matches Some(u) ==> r.server_url@ == u@),
            (req.server_url is None ==> r.server_url@ == "http://localhost:8000"@),
            r.onefile == (match req.onefile {
                Some(b) => b,
                None => true,
            }),
            r.console == (match req.console {
                Some(b) => b,
                None => false,
            }),
            r.icon_path == req.icon_path,
            r.install_requirements == (match req.install_requirements {
                Some(b) => b,
                None => false,
            }),
            (req.requirements_path matches Some(p) ==> r.requirements_path@ == p@),
            (req.requirements_path is None ==> r.requirements_path@ == "requirements.txt"@),
            r.build_frontend == (match req.build_frontend {
                Some(b) => b,
                None => false,
            }),
            r.frontend_dir == req.frontend_dir,
            r.create_launcher == (match req.create_launcher {
                Some(b) => b,
                None => false,
            }),
            r.bundle_requirements == (match req.bundle_requirements {
                Some(b) => b,
                None => false,
            }),
            r.split_frontend == (match req.split_frontend {
                Some(b) => b,
                None => false,
            }),
            r.demo_mode == (match req.demo_mode {
                Some(b) => b,
                None => false,
            }),
            r.demo_duration_minutes == (match req.demo_duration_minutes {
                Some(m) => m,
                None => 60u32,
            }),
    {
        ResolvedCompileOptions {
            project_path: unquote(req.project_path.as_str()),
            entry_file: req.entry_file.clone(),
            output_name: match &req.output_name {
                Some(n) => n.clone(),
                None => replace_all(req.entry_file.as_str(), ".py", ""),
            },
            output_dir: match &req.output_dir {
                Some(d) => Some(unquote(d.as_str())),
                None => None,
            },
            license_key: match &req.license_key {
                Some(k) => k.clone(),
                None => String::from_str("DEMO"),
            },
            server_url: match &req.server_url {
                Some(u) => u.clone(),
                None => String::from_str("http://localhost:8000"),
            },
            onefile: match req.onefile {
                Some(b) => b,
                None => true,
            },
            console: match req.console {
                Some(b) => b,
                None => false,
            },
            icon_path: req.icon_path.clone(),
            install_requirements: match req.install_requirements {
                Some(b) => b,
                None => false,
            },
            requirements_path: match &req.requirements_path {
                Some(p) => p.clone(),
                None => String::from_str("requirements.txt"),
            },
            build_frontend: match req.build_frontend {
                Some(b) => b,
                None => false,
            },
            frontend_dir: req.frontend_dir.clone(),
            create_launcher: match req.create_launcher {
                Some(b) => b,
                None => false,
            },
            bundle_requirements: match req.bundle_requirements {
                Some(b) => b,
                None => false,
            },
            split_frontend: match req.split_frontend {
                Some(b) => b,
                None => false,
            },
            demo_mode: match req.demo_mode {
                Some(b) => b,
                None => false,
            },
            demo_duration_minutes: match req.demo_duration_minutes {
                Some(m) => m,
                None => 60,
            },
        }
    }

    /// The credential literals to bake into the produced executable.
    pub fn credential(&self) -> (r: EmbeddedCredential)
        ensures
            r.license_key@ == self.license_key@,
            r.server_url@ == self.server_url@,
            r.demo_mode == self.demo_mode,
            r.demo_duration_minutes == self.demo_duration_minutes,
    {
        EmbeddedCredential {
            license_key: self.license_key.clone(),
            server_url: self.server_url.clone(),
            demo_mode: self.demo_mode,
            demo_duration_minutes: self.demo_duration_minutes,
        }
    }
}

/// Suffix equality without regard to letter case.
pub open spec fn spec_ci_ends_with(s: Seq<char>, suffix: Seq<char>) -> bool {
    s.len() >= suffix.len() && eq_ignore_case_spec(
        s.subrange(s.len() - suffix.len(), s.len() as int),
        suffix,
    )
}

fn ends_with_ignore_case(s: &str, suffix: &str) -> (r: bool)
    ensures
        r == spec_ci_ends_with(s@, suffix@),
{
    let n = s.unicode_len();
    let sn = suffix.unicode_len();
    if sn > n {
        return false;
    }
    let base = n - sn;
    let mut j: usize = 0;
    while j < sn
        invariant
            0 <= j <= sn,
            n == s@.len(),
            sn == suffix@.len(),
            base == n - sn,
            forall|k: int|
                0 <= k < j ==> lower_char_spec(s@[base + k]) == lower_char_spec(suffix@[k]),
        decreases sn - j,
    {
        if lower_char(s.get_char(base + j)) != lower_char(suffix.get_char(j)) {
            proof {
                let t = s@.subrange(base as int, n as int);
                assert(t[j as int] == s@[base + j]);
            }
            return false;
        }
        j = j + 1;
    }
    proof {
        let t = s@.subrange(base as int, n as int);
        assert(forall|k: int| 0 <= k < t.len() ==> t[k] == s@[base + k]);
    }
    true
}

/// Whether the entry file targets the bundled-runtime backend: the
/// script suffixes of that runtime, compared without regard to
/// letter case.
pub open spec fn spec_bundled_runtime_entry(entry: Seq<char>) -> bool {
    ||| spec_ci_ends_with(entry, ".js"@)
    ||| spec_ci_ends_with(entry, ".ts"@)
    ||| spec_ci_ends_with(entry, ".mjs"@)
    ||| spec_ci_ends_with(entry, ".cjs"@)
}

/// The backend choice made from the entry file's suffix.
pub fn is_bundled_runtime_entry(entry: &str) -> (r: bool)
    ensures
        r == spec_bundled_runtime_entry(entry@),
{
    ends_with_ignore_case(entry, ".js") || ends_with_ignore_case(entry, ".ts")
        || ends_with_ignore_case(entry, ".mjs") || ends_with_ignore_case(entry, ".cjs")
}

/// An explicit list from the request wins over the detected one.
pub fn choose_list(explicit: &Option<Vec<String>>, detected: Vec<String>) -> (r: Vec<String>)
    ensures
        (explicit matches Some(e) ==> r.deep_view() == e.deep_view()),
        (explicit is None ==> r.deep_view() == detected.deep_view()),
{
    match explicit {
        Some(e) => e.clone(),
        None => detected,
    }
}

/// The package-installer arguments for a dependency manifest.
pub fn pip_install_args(requirements_path: &str) -> (r: Vec<String>)
    ensures
        r.deep_view() =~= seq!["install"@, "-r"@, requirements_path@],
{
    let mut out: Vec<String> = Vec::new();
    out.push(String::from_str("install"));
    out.push(String::from_str("-r"));
    out.push(requirements_path.to_owned());
    proof {
        assert(out.deep_view() =~= seq!["install"@, "-r"@, requirements_path@]);
    }
    out
}

/// What to do about dependencies before a bundled-runtime build.
pub enum NpmInstallPlan {
    RunInstall,
    WarnNoManifest,
    AlreadyInstalled,
}

/// Dependencies are installed when a manifest exists without an
/// installed tree; a missing manifest only warns.
pub fn plan_npm_install(package_json_exists: bool, node_modules_exists: bool) -> (r:
    NpmInstallPlan)
    ensures
        package_json_exists && !node_modules_exists ==> r == NpmInstallPlan::RunInstall,
        !package_json_exists ==> r == NpmInstallPlan::WarnNoManifest,
        package_json_exists && node_modules_exists ==> r == NpmInstallPlan::AlreadyInstalled,
{
    if package_json_exists && !node_modules_exists {
        NpmInstallPlan::RunInstall
    } else if !package_json_exists {
        NpmInstallPlan::WarnNoManifest
    } else {
        NpmInstallPlan::AlreadyInstalled
    }
}

/// Which directory a frontend build left its output in.
pub enum FrontendArtifact {
    DistDir,
    BuildDir,
}

/// The conventional output directory wins; the alternative is
/// accepted; nothing found is a build failure.
pub fn pick_frontend_output(has_dist: bool, has_build: bool) -> (r: Option<FrontendArtifact>)
    ensures
        has_dist ==> r == Some(FrontendArtifact::DistDir),
        !has_dist && has_build ==> r == Some(FrontendArtifact::BuildDir),
        !has_dist && !has_build ==> r is None,
{
    if has_dist {
        Some(FrontendArtifact::DistDir)
    } else if has_build {
        Some(FrontendArtifact::BuildDir)
    } else {
        None
    }
}

// ---------------------------------------------------------------
// Argument synthesis for the packaging tool
// ---------------------------------------------------------------
/// One argument per item, each with the given option prefix.
pub open spec fn spec_prefixed_args(prefix: Seq<char>, items: Seq<Seq<char>>) -> Seq<Seq<char>>
    decreases items.len(),
{
    if items.len() == 0 {
        Seq::empty()
    } else {
        spec_prefixed_args(prefix, items.drop_last()) + seq![prefix + items.last()]
    }
}

/// One argument per item mapping it onto itself, as the data
/// options of the packaging tool expect.
pub open spec fn spec_self_pair_args(prefix: Seq<char>, items: Seq<Seq<char>>) -> Seq<Seq<char>>
    decreases items.len(),
{
    if items.len() == 0 {
        Seq::empty()
    } else {
        spec_self_pair_args(prefix, items.drop_last()) + seq![
            prefix + items.last() + "="@ + items.last(),
        ]
    }
}

fn push_prefixed(out: &mut Vec<String>, prefix: &str, items: &Vec<String>)
    ensures
        final(out).deep_view() == old(out).deep_view() + spec_prefixed_args(
            prefix@,
            items.deep_view(),
        ),
{
    let ghost base = out.deep_view();
    let ghost iv = items.deep_view();
    let mut i: usize = 0;
    proof {
        assert(iv.take(0) =~= Seq::<Seq<char>>::empty());
        assert(base + spec_prefixed_args(prefix@, iv.take(0)) =~= base);
    }
    while i < items.len()
        invariant
            0 <= i <= items@.len(),
            iv == items.deep_view(),
            iv.len() == items@.len(),
            out.deep_view() == base + spec_prefixed_args(prefix@, iv.take(i as int)),
        decreases items@.len() - i,
    {
        let ghost prev_dv = out.deep_view();
        proof {
            assert(iv[i as int] == items@[i as int]@);
            assert(iv.take(i + 1).drop_last() =~= iv.take(i as int));
            assert(iv.take(i + 1).last() == iv[i as int]);
        }
        let mut arg = String::from_str(prefix);
        arg.append(items[i].as_str());
        out.push(arg);
        proof {
            assert(out.deep_view() =~= prev_dv + seq![prefix@ + iv[i as int]]);
            assert(prev_dv + seq![prefix@ + iv[i as int]] =~= base + spec_prefixed_args(
                prefix@,
                iv.take(i + 1),
            ));
        }
        i = i + 1;
    }
    proof {
        assert(iv.take(items@.len() as int) =~= iv);
    }
}

fn push_self_pairs(out: &mut Vec<String>, prefix: &str, items: &Vec<String>)
    ensures
        final(out).deep_view() == old(out).deep_view() + spec_self_pair_args(
            prefix@,
            items.deep_view(),
        ),
{
    let ghost base = out.deep_view();
    let ghost iv = items.deep_view();
    let mut i: usize = 0;
    proof {
        assert(iv.take(0) =~= Seq::<Seq<char>>::empty());
        assert(base + spec_self_pair_args(prefix@, iv.take(0)) =~= base);
    }
    while i < items.len()
        invariant
            0 <= i <= items@.len(),
            iv == items.deep_view(),
            iv.len() == items@.len(),
            out.deep_view() == base + spec_self_pair_args(prefix@, iv.take(i as int)),
        decreases items@.len() - i,
    {
        let ghost prev_dv = out.deep_view();
        proof {
            assert(iv[i as int] == items@[i as int]@);
            assert(iv.take(i + 1).drop_last() =~= iv.take(i as int));
            assert(iv.take(i + 1).last() == iv[i as int]);
        }
        let mut arg = String::from_str(prefix);
        arg.append(items[i].as_str());
        arg.append("=");
        arg.append(items[i].as_str());
        out.push(arg);
        proof {
            assert(out.deep_view() =~= prev_dv + seq![
                prefix@ + iv[i as int] + "="@ + iv[i as int],
            ]);
            assert(prev_dv + seq![prefix@ + iv[i as int] + "="@ + iv[i as int]] =~= base
                + spec_self_pair_args(prefix@, iv.take(i + 1)));
        }
        i = i + 1;
    }
    proof {
        assert(iv.take(items@.len() as int) =~= iv);
    }
}

/// The packaging tool's whole argument vector: the fixed flags, the
/// resolved options, the package and data lists, the bundled
/// manifest, the embedded frontend, and the entry file as the final
/// positional argument.
pub open spec fn spec_nuitka_args(
    opts: &ResolvedCompileOptions,
    packages: Seq<Seq<char>>,
    excludes: Seq<Seq<char>>,
    data_dirs: Seq<Seq<char>>,
    data_files: Seq<Seq<char>>,
    requirements_present: bool,
    frontend_dist: Option<Seq<char>>,
) -> Seq<Seq<char>> {
    seq!["-m"@, "nuitka"@, "--standalone"@, "--remove-output"@] + (if opts.onefile {
        seq!["--onefile"@]
    } else {
        Seq::empty()
    }) + (if !opts.console {
        seq!["--windows-console-mode=disable"@]
    } else {
        Seq::empty()
    }) + seq!["--output-filename="@ + opts.output_name@ + ".exe"@] + (match opts.icon_path {
        Some(icon) => seq!["--windows-icon-from-ico="@ + icon@],
        None => Seq::empty(),
    }) + (match opts.output_dir {
        Some(d) => seq!["--output-dir="@ + d@],
        None => Seq::empty(),
    }) + spec_prefixed_args("--include-package="@, packages) + spec_prefixed_args(
        "--nofollow-import-to="@,
        excludes,
    ) + spec_self_pair_args("--include-data-dir="@, data_dirs) + spec_self_pair_args(
        "--include-data-files="@,
        data_files,
    ) + (if opts.bundle_requirements && requirements_present {
        seq!["--include-data-files="@ + opts.requirements_path@ + "=requirements.txt"@]
    } else {
        Seq::empty()
    }) + (match frontend_dist {
        Some(d) => if !opts.split_frontend {
            seq!["--include-data-dir="@ + d + "=static"@]
        } else {
            Seq::empty()
        },
        None => Seq::empty(),
    }) + seq![opts.entry_file@]
}

/// Assemble the packaging tool's argument vector.
pub fn nuitka_args(
    opts: &ResolvedCompileOptions,
    packages: &Vec<String>,
    excludes: &Vec<String>,
    data_dirs: &Vec<String>,
    data_files: &Vec<String>,
    requirements_present: bool,
    frontend_dist: Option<&String>,
) -> (r: Vec<String>)
    ensures
        r.deep_view() == spec_nuitka_args(
            opts,
            packages.deep_view(),
            excludes.deep_view(),
            data_dirs.deep_view(),
            data_files.deep_view(),
            requirements_present,
            match frontend_dist {
                Some(d) => Some(d@),
                None => None,
            },
        ),
{
    let ghost s1 = seq!["-m"@, "nuitka"@, "--standalone"@, "--remove-output"@];
    let mut out: Vec<String> = Vec::new();
    out.push(String::from_str("-m"));
    out.push(String::from_str("nuitka"));
    out.push(String::from_str("--standalone"));
    out.push(String::from_str("--remove-output"));
    proof {
        assert(out.deep_view() =~= s1);
    }
    let ghost s2 = s1 + (if opts.onefile {
        seq!["--onefile"@]
    } else {
        Seq::<Seq<char>>::empty()
    });
    if opts.onefile {
        out.push(String::from_str("--onefile"));
    }
    proof {
        assert(out.deep_view() =~= s2);
    }
    let ghost s3 = s2 + (if !opts.console {
        seq!["--windows-console-mode=disable"@]
    } else {
        Seq::<Seq<char>>::empty()
    });
    if !opts.console {
        out.push(String::from_str("--windows-console-mode=disable"));
    }
    proof {
        assert(out.deep_view() =~= s3);
    }
    let ghost s4 = s3 + seq!["--output-filename="@ + opts.output_name@ + ".exe"@];
    let mut name_arg = String::from_str("--output-filename=");
    name_arg.append(opts.output_name.as_str());
    name_arg.append(".exe");
    out.push(name_arg);
    proof {
        assert(out.deep_view() =~= s4);
    }
    let ghost s5 = s4 + (match &opts.icon_path {
        Some(icon) => seq!["--windows-icon-from-ico="@ + icon@],
        None => Seq::<Seq<char>>::empty(),
    });
    match &opts.icon_path {
        Some(icon) => {
            let mut icon_arg = String::from_str("--windows-icon-from-ico=");
            icon_arg.append(icon.as_str());
            out.push(icon_arg);
        },
        None => {},
    }
    proof {
        assert(out.deep_view() =~= s5);
    }
    let ghost s6 = s5 + (match &opts.output_dir {
        Some(d) => seq!["--output-dir="@ + d@],
        None => Seq::<Seq<char>>::empty(),
    });
    match &opts.output_dir {
        Some(d) => {
            let mut dir_arg = String::from_str("--output-dir=");
            dir_arg.append(d.as_str());
            out.push(dir_arg);
        },
        None => {},
    }
    proof {
        assert(out.deep_view() =~= s6);
    }
    let ghost s7 = s6 + spec_prefixed_args("--include-package="@, packages.deep_view());
    push_prefixed(&mut out, "--include-package=", packages);
    proof {
        assert(out.deep_view() =~= s7);
    }
    let ghost s8 = s7 + spec_prefixed_args("--nofollow-import-to="@, excludes.deep_view());
    push_prefixed(&mut out, "--nofollow-import-to=", excludes);
    proof {
        assert(out.deep_view() =~= s8);
    }
    let ghost s9 = s8 + spec_self_pair_args("--include-data-dir="@, data_dirs.deep_view());
    push_self_pairs(&mut out, "--include-data-dir=", data_dirs);
    proof {
        assert(out.deep_view() =~= s9);
    }
    let ghost s10 = s9 + spec_self_pair_args("--include-data-files="@, data_files.deep_view());
    push_self_pairs(&mut out, "--include-data-files=", data_files);
    proof {
        assert(out.deep_view() =~= s10);
    }
    let ghost s11 = s10 + (if opts.bundle_requirements && requirements_present {
        seq!["--include-data-files="@ + opts.requirements_path@ + "=requirements.txt"@]
    } else {
        Seq::<Seq<char>>::empty()
    });
    if opts.bundle_requirements && requirements_present {
        let mut req_arg = String::from_str("--include-data-files=");
        req_arg.append(opts.requirements_path.as_str());
        req_arg.append("=requirements.txt");
        out.push(req_arg);
    }
    proof {
        assert(out.deep_view() =~= s11);
    }
    let ghost s12 = s11 + (match frontend_dist {
        Some(d) => if !opts.split_frontend {
            seq!["--include-data-dir="@ + d@ + "=static"@]
        } else {
            Seq::<Seq<char>>::empty()
        },
        None => Seq::<Seq<char>>::empty(),
    });
    match frontend_dist {
        Some(d) => {
            if !opts.split_frontend {
                let mut dist_arg = String::from_str("--include-data-dir=");
                dist_arg.append(d.as_str());
                dist_arg.append("=static");
                out.push(dist_arg);
            }
        },
        None => {},
    }
    proof {
        assert(out.deep_view() =~= s12);
    }
    out.push(opts.entry_file.clone());
    proof {
        assert(out.deep_view() =~= s12 + seq![opts.entry_file@]);
    }
    out
}

// ---------------------------------------------------------------
// Bundled-runtime pipeline helpers
// ---------------------------------------------------------------
/// Index of the last occurrence of `c`, or minus one if absent.
pub open spec fn last_index_of(s: Seq<char>, c: char) -> int
    decreases s.len(),
{
    if s.len() == 0 {
        -1
    } else if s[s.len() - 1] == c {
        s.len() - 1
    } else {
        last_index_of(s.drop_last(), c)
    }
}

pub proof fn lemma_last_index_of(s: Seq<char>, c: char)
    ensures
        -1 <= last_index_of(s, c) < s.len(),
        last_index_of(s, c) >= 0 ==> s[last_index_of(s, c)] == c,
        forall|k: int| last_index_of(s, c) < k < s.len() ==> s[k] != c,
    decreases s.len(),
{
    if s.len() > 0 && s[s.len() - 1] != c {
        lemma_last_index_of(s.drop_last(), c);
        assert(forall|k: int| 0 <= k < s.len() - 1 ==> s.drop_last()[k] == s[k]);
    }
}

/// Index just past the last path separator, or minus one if none.
fn last_char_position(s: &str, c: char) -> (r: Option<usize>)
    ensures
        r matches Some(j) ==> j == last_index_of(s@, c),
        r is None ==> last_index_of(s@, c) == -1,
{
    let n = s.unicode_len();
    let mut j: usize = n;
    while j > 0
        invariant
            0 <= j <= n,
            n == s@.len(),
            forall|k: int| j <= k < n ==> s@[k] != c,
        decreases j,
    {
        if s.get_char(j - 1) == c {
            proof {
                lemma_last_index_of(s@, c);
                assert(s@[j - 1] == c);
            }
            return Some(j - 1);
        }
        j = j - 1;
    }
    proof {
        lemma_last_index_of(s@, c);
        if last_index_of(s@, c) >= 0 {
            assert(s@[last_index_of(s@, c)] == c);
        }
    }
    None
}

/// The file name after the last separator of either kind.
pub open spec fn spec_base_name(p: Seq<char>) -> Seq<char> {
    let slash = last_index_of(p, '/');
    let backslash = last_index_of(p, '\\');
    if slash >= backslash {
        p.skip(slash + 1)
    } else {
        p.skip(backslash + 1)
    }
}

/// The name before its final extension; a name whose only dot leads
/// it keeps it.
pub open spec fn spec_file_stem(name: Seq<char>) -> Seq<char> {
    let d = last_index_of(name, '.');
    if d <= 0 {
        name
    } else {
        name.take(d)
    }
}

/// The default output name for the bundled-runtime backend: the
/// entry file's stem, or a fixed fallback when nothing is left.
pub open spec fn spec_node_output_name(entry: Seq<char>) -> Seq<char> {
    if spec_file_stem(spec_base_name(entry)).len() == 0 {
        "output"@
    } else {
        spec_file_stem(spec_base_name(entry))
    }
}

/// The entry file's stem for naming the bundled-runtime output.
pub fn node_output_name(entry_file: &str) -> (r: String)
    ensures
        r@ == spec_node_output_name(entry_file@),
{
    let n = entry_file.unicode_len();
    let slash = last_char_position(entry_file, '/');
    let backslash = last_char_position(entry_file, '\\');
    proof {
        lemma_last_index_of(entry_file@, '/');
        lemma_last_index_of(entry_file@, '\\');
    }
    let cut: usize = match (slash, backslash) {
        (Some(a), Some(b)) => if a >= b {
            a + 1
        } else {
            b + 1
        },
        (Some(a), None) => a + 1,
        (None, Some(b)) => b + 1,
        (None, None) => 0,
    };
    proof {
        lemma_last_index_of(entry_file@, '/');
        lemma_last_index_of(entry_file@, '\\');
    }
    let base = entry_file.substring_char(cut, n);
    proof {
        assert(base@ =~= spec_base_name(entry_file@));
    }
    let bn = base.unicode_len();
    let dot = last_char_position(base, '.');
    proof {
        lemma_last_index_of(base@, '.');
    }
    let stem = match dot {
        Some(d) if d > 0 => base.substring_char(0, d),
        _ => base,
    };
    proof {
        assert(stem@ =~= spec_file_stem(base@));
    }
    if stem.unicode_len() == 0 {
        String::from_str("output")
    } else {
        stem.to_owned()
    }
}

/// A single quote made safe inside a doubled-quoting shell string.
pub fn escape_quotes_doubled(s: &str) -> (r: String)
    ensures
        r@ == replace_all_spec(s@, "'"@, "''"@),
{
    replace_all(s, "'", "''")
}

/// A single quote made safe inside a portable-shell string.
pub fn escape_quotes_posix(s: &str) -> (r: String)
    ensures
        r@ == replace_all_spec(s@, "'"@, "'\\''"@),
{
    replace_all(s, "'", "'\\''")
}

/// The bootstrap file's path relative to the project directory,
/// with the separator of the platform the command runs on.
pub fn bootstrap_rel_path(name: &str, windows_separator: bool) -> (r: String)
    ensures
        windows_separator ==> r@ == ".\\"@ + name@,
        !windows_separator ==> r@ == "./"@ + name@,
{
    let mut out = if windows_separator {
        String::from_str(".\\")
    } else {
        String::from_str("./")
    };
    out.append(name);
    out
}

/// The packager invocation for the bundled-runtime backend. The
/// output path must already be escaped for the target shell.
pub fn pkg_command_line(entry_rel: &str, target: &str, escaped_output: &str) -> (r: String)
    ensures
        r@ == "npx -y pkg '"@ + entry_rel@ + "' --target "@ + target@ + " --output '"@
            + escaped_output@ + "'"@,
{
    let mut out = String::from_str("npx -y pkg '");
    out.append(entry_rel);
    out.append("' --target ");
    out.append(target);
    out.append(" --output '");
    out.append(escaped_output);
    out.append("'");
    out
}

// ---------------------------------------------------------------
// The job state machine
// ---------------------------------------------------------------
/// Relies on uuid::Uuid::new_v4 and its hyphenated rendering: a
/// fresh random identifier, thirty-six characters long. Nothing
/// more is promised of a random value.
#[verifier::external_body]
pub(crate) fn fresh_uuid() -> (r: String)
    ensures
        r@.len() == 36,
{
    uuid::Uuid::new_v4().to_string()
}

/// A fresh bootstrap file name built from a random identifier.
pub fn new_bootstrap_file_name() -> (r: String)
    ensures
        exists|u: Seq<char>|
            u.len() == 36 && r@ == "_cv_bootstrap_"@ + crate::fragments::spec_short_id(u)
                + ".js"@,
{
    let id = fresh_uuid();
    let short = crate::fragments::short_id(id.as_str());
    let r = crate::fragments::bootstrap_file_name(short.as_str());
    proof {
        assert(id@.len() == 36 && r@ == "_cv_bootstrap_"@ + crate::fragments::spec_short_id(id@)
            + ".js"@);
    }
    r
}

/// The stations of a job, in the order they are passed.
#[derive(Clone, Copy, PartialEq, Eq, Structural, Debug)]
pub enum JobState {
    Init,
    Preparing,
    Injecting,
    Installing,
    FrontendBuild,
    Compiling,
    Packaging,
    Finalizing,
    Complete,
    Failed,
}

impl JobState {
    pub open spec fn is_terminal(&self) -> bool {
        *self == JobState::Complete || *self == JobState::Failed
    }

    /// The position of a station in the forward order.
    pub open spec fn rank(&self) -> int {
        match self {
            JobState::Init => 0,
            JobState::Preparing => 1,
            JobState::Injecting => 2,
            JobState::Installing => 3,
            JobState::FrontendBuild => 4,
            JobState::Compiling => 5,
            JobState::Packaging => 6,
            JobState::Finalizing => 7,
            JobState::Complete => 8,
            JobState::Failed => 9,
        }
    }
}

/// One compilation job: its identifier, its station, whether the
/// entry file has been instrumented and restored, and its event
/// log.
pub struct CompileJob {
    pub id: String,
    pub state: JobState,
    pub injected: bool,
    pub restored: bool,
    pub log: ProgressLog,
}

impl CompileJob {
    /// The job invariant: the log is sound and belongs to this job,
    /// a terminal station has delivered exactly its one result, a
    /// restore presupposes an injection, and no job terminates with
    /// an injection left unrestored.
    pub open spec fn wf(&self) -> bool {
        &&& self.log.wf()
        &&& self.log.job_id@ == self.id@
        &&& (self.state.is_terminal() <==> self.log.result is Some)
        &&& (self.restored ==> self.injected)
        &&& (self.state.is_terminal() && self.injected ==> self.restored)
    }

    /// Accept a build request: a fresh identifier, the initial
    /// station, an empty log.
    pub fn begin() -> (r: CompileJob)
        ensures
            r.wf(),
            r.state == JobState::Init,
            !r.injected,
            !r.restored,
            r.log.result is None,
            r.log.events@.len() == 0,
            r.log.current == 0,
    {
        let id = fresh_uuid();
        let log = ProgressLog::new(id.clone());
        CompileJob { id, state: JobState::Init, injected: false, restored: false, log }
    }

    /// Record one progress event for the listener.
    pub fn note_progress(&mut self, progress: u32, message: String, stage: String)
        requires
            old(self).wf(),
            !old(self).state.is_terminal(),
            progress <= 100,
        ensures
            final(self).wf(),
            final(self).state == old(self).state,
            final(self).injected == old(self).injected,
            final(self).restored == old(self).restored,
            final(self).id@ == old(self).id@,
            final(self).log.events@.len() == old(self).log.events@.len() + 1,
            final(self).log.result is None,
            final(self).log.events@.last().message@ == message@,
            final(self).log.events@.last().stage@ == stage@,
            final(self).log.events@.last().progress >= old(self).log.current,
    {
        self.log.emit(progress, message, stage);
    }

    /// Move forward to a later non-terminal station; stations may be
    /// skipped but never revisited.
    pub fn enter(&mut self, next: JobState)
        requires
            old(self).wf(),
            !old(self).state.is_terminal(),
            !next.is_terminal(),
            next.rank() > old(self).state.rank(),
        ensures
            final(self).wf(),
            final(self).state == next,
            final(self).injected == old(self).injected,
            final(self).restored == old(self).restored,
            final(self).id@ == old(self).id@,
            final(self).log == old(self).log,
    {
        self.state = next;
    }

    /// Note that the entry file has been instrumented and its one
    /// backup taken.
    pub fn mark_injected(&mut self)
        requires
            old(self).wf(),
            !old(self).state.is_terminal(),
            !old(self).injected,
        ensures
            final(self).wf(),
            final(self).injected,
            !final(self).restored,
            final(self).state == old(self).state,
            final(self).id@ == old(self).id@,
            final(self).log == old(self).log,
    {
        self.injected = true;
    }

    /// Note that the original entry file is back in place and the
    /// backup gone; this happens exactly once, before any terminal
    /// event.
    pub fn mark_restored(&mut self)
        requires
            old(self).wf(),
            !old(self).state.is_terminal(),
            old(self).injected,
            !old(self).restored,
        ensures
            final(self).wf(),
            final(self).restored,
            final(self).injected,
            final(self).state == old(self).state,
            final(self).id@ == old(self).id@,
            final(self).log == old(self).log,
    {
        self.restored = true;
    }

    /// Deliver the success result. Demands the restore where an
    /// injection happened: no job completes with the user's source
    /// still rewritten.
    pub fn complete(&mut self, output_path: String)
        requires
            old(self).wf(),
            !old(self).state.is_terminal(),
            old(self).injected ==> old(self).restored,
        ensures
            final(self).wf(),
            final(self).state == JobState::Complete,
            final(self).injected == old(self).injected,
            final(self).restored == old(self).restored,
            final(self).id@ == old(self).id@,
            final(self).log.result matches Some(res) && res.success && (res.output_path
                matches Some(p) && p@ == output_path@) && res.error_message is None,
            final(self).log.events@ == old(self).log.events@,
    {
        self.log.finish(true, Some(output_path), None);
        self.state = JobState::Complete;
    }

    /// Deliver the failure result, the error text kept verbatim.
    /// Demands the restore where an injection happened, on this
    /// exit path as on every other.
    pub fn fail(&mut self, error_message: String)
        requires
            old(self).wf(),
            !old(self).state.is_terminal(),
            old(self).injected ==> old(self).restored,
        ensures
            final(self).wf(),
            final(self).state == JobState::Failed,
            final(self).injected == old(self).injected,
            final(self).restored == old(self).restored,
            final(self).id@ == old(self).id@,
            final(self).log.result matches Some(res) && !res.success && res.output_path is None
                && (res.error_message matches Some(m) && m@ == error_message@),
            final(self).log.events@ == old(self).log.events@,
    {
        self.log.finish(false, None, Some(error_message));
        self.state = JobState::Failed;
    }
}

/// Stream one line of the packaging tool's output into the job:
/// exactly one progress event per input line, in input order, with
/// the classifier's stage tag and advanced figure. Returns the new
/// figure for the next line.
pub fn record_compiler_line(job: &mut CompileJob, line: String, progress: u32) -> (r: u32)
    requires
        old(job).wf(),
        !old(job).state.is_terminal(),
        progress <= 90,
    ensures
        final(job).wf(),
        final(job).state == old(job).state,
        final(job).injected == old(job).injected,
        final(job).restored == old(job).restored,
        final(job).id@ == old(job).id@,
        final(job).log.result is None,
        final(job).log.events@.len() == old(job).log.events@.len() + 1,
        final(job).log.events@.last().message@ == line@,
        final(job).log.events@.last().stage@ == crate::progress::spec_classify_stage(line@),
        r == crate::progress::spec_classify_progress(line@, progress as int),
        progress <= r <= 90,
{
    let (stage, next) = crate::progress::classify_compiler_line(line.as_str(), progress);
    job.note_progress(next, line, stage);
    next
}

/// A terminated job has delivered exactly one result, and where it
/// instrumented the entry file it restored it first.
pub proof fn lemma_terminal_job_restored(job: &CompileJob)
    requires
        job.wf(),
        job.state.is_terminal(),
    ensures
        job.log.result is Some,
        job.injected ==> job.restored,
{
}

/// The argument vector always ends with the entry file.
pub proof fn lemma_args_end_with_entry(
    opts: &ResolvedCompileOptions,
    packages: Seq<Seq<char>>,
    excludes: Seq<Seq<char>>,
    data_dirs: Seq<Seq<char>>,
    data_files: Seq<Seq<char>>,
    requirements_present: bool,
    frontend_dist: Option<Seq<char>>,
)
    ensures
        spec_nuitka_args(
            opts,
            packages,
            excludes,
            data_dirs,
            data_files,
            requirements_present,
            frontend_dist,
        ).last() == opts.entry_file@,
{
}

} // verus!
