//! The build planner: dependency-manifest and environment-file
//! parsing, package and data-directory classification, entry-file
//! ranking, and the assembled project structure.
use vstd::prelude::*;

use crate::frontend::FrontendProbe;
use crate::frontend::detect_frontend_framework;
use crate::frontend::spec_detect_probe;
use crate::text::contains_sub;
use crate::text::contains_str;
use crate::text::ends_with_spec;
use crate::text::ends_with_str;
use crate::text::eq_ignore_case_spec;
use crate::text::eq_ignore_ascii_case_str;
use crate::text::replace_all;
use crate::text::replace_all_spec;
use crate::text::split_lines;
use crate::text::split_lines_spec;
use crate::text::starts_with_spec;
use crate::text::starts_with_str;
use crate::text::strip_char_spec;
use crate::text::strip_char_str;
use crate::text::str_eq;
use crate::text::trim_spec;
use crate::text::trim_str;

verus! {

// ---------------------------------------------------------------
// Dependency manifest parsing
// ---------------------------------------------------------------
/// The characters that may begin a version specifier or an extras
/// marker after a package name.
pub open spec fn is_version_delim(c: char) -> bool {
    c == '=' || c == '<' || c == '>' || c == '!' || c == '['
}

/// Index of the first version delimiter, or the length if none.
pub open spec fn first_delim_index(s: Seq<char>) -> int
    decreases s.len(),
{
    if s.len() == 0 {
        0
    } else if is_version_delim(s[0]) {
        0
    } else {
        1 + first_delim_index(s.skip(1))
    }
}

pub proof fn lemma_first_delim_index(s: Seq<char>)
    ensures
        0 <= first_delim_index(s) <= s.len(),
        forall|k: int| 0 <= k < first_delim_index(s) ==> !is_version_delim(s[k]),
        first_delim_index(s) < s.len() ==> is_version_delim(s[first_delim_index(s)]),
    decreases s.len(),
{
    if s.len() > 0 && !is_version_delim(s[0]) {
        lemma_first_delim_index(s.skip(1));
        assert forall|k: int| 0 <= k < first_delim_index(s) implies !is_version_delim(s[k]) by {
            if k >= 1 {
                assert(s.skip(1)[k - 1] == s[k]);
            }
        }
    }
}

/// A line that contributes nothing: blank, or a comment.
pub open spec fn spec_line_skipped(l: Seq<char>) -> bool {
    trim_spec(l).len() == 0 || trim_spec(l)[0] == '#'
}

/// The package name on one manifest line: everything before the
/// first version delimiter, trimmed.
pub open spec fn spec_req_name(l: Seq<char>) -> Seq<char> {
    trim_spec(l.take(first_delim_index(l)))
}

/// The package names of a line list, in order, skipping blank lines,
/// comments and names that trim to nothing.
pub open spec fn spec_req_names_of_lines(ls: Seq<Seq<char>>) -> Seq<Seq<char>>
    decreases ls.len(),
{
    if ls.len() == 0 {
        Seq::empty()
    } else {
        let prev = spec_req_names_of_lines(ls.drop_last());
        let l = ls.last();
        if spec_line_skipped(l) || spec_req_name(l).len() == 0 {
            prev
        } else {
            prev + seq![spec_req_name(l)]
        }
    }
}

/// Dependency-manifest parsing over the whole file text.
pub open spec fn spec_parse_requirements(s: Seq<char>) -> Seq<Seq<char>> {
    spec_req_names_of_lines(split_lines_spec(s))
}

/// Parse a dependency manifest: one package specifier per line,
/// `#` comments and blank lines ignored, each kept line reduced to
/// the package name before its version specifier.
pub fn parse_requirements(content: &str) -> (r: Vec<String>)
    ensures
        r.deep_view() == spec_parse_requirements(content@),
{
    let lines = split_lines(content);
    let ghost lv = lines.deep_view();
    let mut out: Vec<String> = Vec::new();
    let mut i: usize = 0;
    proof {
        assert(lv.take(0) =~= Seq::<Seq<char>>::empty());
    }
    while i < lines.len()
        invariant
            0 <= i <= lines@.len(),
            lv == lines.deep_view(),
            lv.len() == lines@.len(),
            out.deep_view() == spec_req_names_of_lines(lv.take(i as int)),
        decreases lines@.len() - i,
    {
        let ghost prev_dv = out.deep_view();
        let line = lines[i].as_str();
        proof {
            assert(lv[i as int] == lines@[i as int]@);
            assert(lv.take(i + 1).drop_last() =~= lv.take(i as int));
            assert(lv.take(i + 1).last() == lv[i as int]);
        }
        let t = trim_str(line);
        let skipped = t.unicode_len() == 0 || t.get_char(0) == '#';
        if !skipped {
            let n = line.unicode_len();
            let mut d: usize = 0;
            while d < n && !is_version_delim_char(line.get_char(d))
                invariant
                    0 <= d <= n,
                    n == line@.len(),
                    forall|k: int| 0 <= k < d ==> !is_version_delim(line@[k]),
                decreases n - d,
            {
                d = d + 1;
            }
            proof {
                lemma_first_delim_index(line@);
                assert(first_delim_index(line@) == d);
            }
            let name = trim_str(line.substring_char(0, d));
            proof {
                assert(line@.subrange(0, d as int) =~= line@.take(d as int));
            }
            if name.unicode_len() > 0 {
                out.push(name.to_owned());
                proof {
                    assert(out.deep_view() =~= prev_dv.push(spec_req_name(lv[i as int])));
                    assert(out.deep_view() =~= prev_dv + seq![spec_req_name(lv[i as int])]);
                }
            }
        }
        i = i + 1;
    }
    proof {
        assert(lv.take(lines@.len() as int) =~= lv);
    }
    out
}

fn is_version_delim_char(c: char) -> (r: bool)
    ensures
        r == is_version_delim(c),
{
    c == '=' || c == '<' || c == '>' || c == '!' || c == '['
}

// ---------------------------------------------------------------
// Environment file parsing
// ---------------------------------------------------------------
/// One parsed environment default.
pub struct EnvEntry {
    pub key: String,
    pub value: String,
}

/// The key and value pairs of a list of entries.
pub open spec fn env_kv_seq(v: Seq<EnvEntry>) -> Seq<(Seq<char>, Seq<char>)> {
    Seq::new(v.len(), |i: int| (v[i].key@, v[i].value@))
}

/// What one environment line contributes: the trimmed key before the
/// first equals sign, and the trimmed value after it with one layer
/// of outer double then single quotes stripped. Blank lines,
/// comments and lines without an equals sign contribute nothing.
pub open spec fn spec_env_line(l: Seq<char>) -> Option<(Seq<char>, Seq<char>)> {
    if spec_line_skipped(l) {
        None
    } else if !trim_spec(l).contains('=') {
        None
    } else {
        Some((spec_env_key(l), spec_env_value(l)))
    }
}

pub open spec fn spec_env_key(l: Seq<char>) -> Seq<char> {
    let t = trim_spec(l);
    trim_spec(t.take(crate::text::first_char_index(t, '=')))
}

pub open spec fn spec_env_value(l: Seq<char>) -> Seq<char> {
    let t = trim_spec(l);
    strip_char_spec(
        strip_char_spec(trim_spec(t.skip(crate::text::first_char_index(t, '=') + 1)), '"'),
        '\'',
    )
}

/// The pairs of a line list, in order.
pub open spec fn spec_env_pairs_of_lines(ls: Seq<Seq<char>>) -> Seq<(Seq<char>, Seq<char>)>
    decreases ls.len(),
{
    if ls.len() == 0 {
        Seq::empty()
    } else {
        let prev = spec_env_pairs_of_lines(ls.drop_last());
        match spec_env_line(ls.last()) {
            Some(kv) => prev + seq![kv],
            None => prev,
        }
    }
}

/// Environment-file parsing over the whole file text.
pub open spec fn spec_parse_env(s: Seq<char>) -> Seq<(Seq<char>, Seq<char>)> {
    spec_env_pairs_of_lines(split_lines_spec(s))
}

/// The pairs folded into a map, a later key overriding an earlier.
pub open spec fn env_map_of(pairs: Seq<(Seq<char>, Seq<char>)>) -> Map<Seq<char>, Seq<char>>
    decreases pairs.len(),
{
    if pairs.len() == 0 {
        Map::empty()
    } else {
        env_map_of(pairs.drop_last()).insert(pairs.last().0, pairs.last().1)
    }
}

/// Parse an environment file: `KEY=VALUE` lines, keys and values
/// trimmed, outer quotes stripped from values, comments and blank
/// lines ignored. Pairs come back in line order; as a map they read
/// as `env_map_of` of these pairs, a later key overriding an
/// earlier one.
pub fn parse_env(content: &str) -> (r: Vec<EnvEntry>)
    ensures
        env_kv_seq(r@) == spec_parse_env(content@),
{
    let lines = split_lines(content);
    let ghost lv = lines.deep_view();
    let mut out: Vec<EnvEntry> = Vec::new();
    let mut i: usize = 0;
    proof {
        assert(lv.take(0) =~= Seq::<Seq<char>>::empty());
        assert(env_kv_seq(out@) =~= Seq::<(Seq<char>, Seq<char>)>::empty());
    }
    while i < lines.len()
        invariant
            0 <= i <= lines@.len(),
            lv == lines.deep_view(),
            lv.len() == lines@.len(),
            env_kv_seq(out@) == spec_env_pairs_of_lines(lv.take(i as int)),
        decreases lines@.len() - i,
    {
        let ghost prev_kv = env_kv_seq(out@);
        let line = lines[i].as_str();
        proof {
            assert(lv[i as int] == lines@[i as int]@);
            assert(lv.take(i + 1).drop_last() =~= lv.take(i as int));
            assert(lv.take(i + 1).last() == lv[i as int]);
        }
        let t = trim_str(line);
        let skipped = t.unicode_len() == 0 || t.get_char(0) == '#';
        if !skipped {
            let e = crate::text::find_char_from(t, 0, '=');
            proof {
                crate::text::lemma_first_char_index(t@, '=');
                assert(crate::text::first_char_index(t@, '=') == e);
                if e < t@.len() {
                    assert(t@.contains('=')) by {
                        assert(t@[e as int] == '=');
                    }
                } else {
                    assert(!t@.contains('=')) by {
                        if t@.contains('=') {
                            let w = choose|w: int| 0 <= w < t@.len() && t@[w] == '=';
                            assert(t@[w] != '=');
                        }
                    }
                }
            }
            if e < t.unicode_len() {
                let key = trim_str(t.substring_char(0, e)).to_owned();
                let raw_value = trim_str(t.substring_char(e + 1, t.unicode_len()));
                let value = strip_char_str(strip_char_str(raw_value, '"'), '\'').to_owned();
                proof {
                    assert(t@.subrange(0, e as int) =~= t@.take(e as int));
                    assert(t@.subrange(e + 1, t@.len() as int) =~= t@.skip(e + 1));
                    assert(key@ == spec_env_key(lv[i as int]));
                    assert(value@ == spec_env_value(lv[i as int]));
                }
                out.push(EnvEntry { key, value });
                proof {
                    assert(env_kv_seq(out@) =~= prev_kv + seq![
                        (spec_env_key(lv[i as int]), spec_env_value(lv[i as int])),
                    ]);
                }
            }
        }
        i = i + 1;
    }
    proof {
        assert(lv.take(lines@.len() as int) =~= lv);
    }
    out
}

// ---------------------------------------------------------------
// Package, data-directory and entry-file classification
// ---------------------------------------------------------------
/// A dotted package name from a relative directory path.
pub open spec fn spec_package_name(rel: Seq<char>) -> Seq<char> {
    replace_all_spec(replace_all_spec(rel, "\\"@, "."@), "/"@, "."@)
}

/// Names beginning with double underscores or a dot are not
/// reported as packages.
pub open spec fn spec_keep_package(name: Seq<char>) -> bool {
    !starts_with_spec(name, "__"@) && !starts_with_spec(name, "."@)
}

/// The package names of the marker directories, in order.
pub open spec fn spec_packages_of(rels: Seq<Seq<char>>) -> Seq<Seq<char>>
    decreases rels.len(),
{
    if rels.len() == 0 {
        Seq::empty()
    } else {
        let prev = spec_packages_of(rels.drop_last());
        let name = spec_package_name(rels.last());
        if spec_keep_package(name) {
            prev + seq![name]
        } else {
            prev
        }
    }
}

/// Package names from the relative paths of the directories that
/// hold a package-marker file. The walk that finds them reports each
/// path with its native separators.
pub fn detect_python_packages(package_dirs: &Vec<String>) -> (r: Vec<String>)
    ensures
        r.deep_view() == spec_packages_of(package_dirs.deep_view()),
{
    let ghost dv = package_dirs.deep_view();
    let mut out: Vec<String> = Vec::new();
    let mut i: usize = 0;
    proof {
        assert(dv.take(0) =~= Seq::<Seq<char>>::empty());
    }
    while i < package_dirs.len()
        invariant
            0 <= i <= package_dirs@.len(),
            dv == package_dirs.deep_view(),
            dv.len() == package_dirs@.len(),
            out.deep_view() == spec_packages_of(dv.take(i as int)),
        decreases package_dirs@.len() - i,
    {
        let ghost prev_dv = out.deep_view();
        proof {
            assert(dv[i as int] == package_dirs@[i as int]@);
            assert(dv.take(i + 1).drop_last() =~= dv.take(i as int));
            assert(dv.take(i + 1).last() == dv[i as int]);
        }
        let dotted = replace_all(package_dirs[i].as_str(), "\\", ".");
        let name = replace_all(dotted.as_str(), "/", ".");
        if !(starts_with_str(name.as_str(), "__") || starts_with_str(name.as_str(), ".")) {
            out.push(name);
            proof {
                assert(out.deep_view() =~= prev_dv + seq![spec_package_name(dv[i as int])]);
            }
        }
        i = i + 1;
    }
    proof {
        assert(dv.take(package_dirs@.len() as int) =~= dv);
    }
    out
}

/// What the planner learned about one top-level directory.
pub struct DirProbe {
    pub name: String,
    pub has_package_marker: bool,
    pub has_files: bool,
}

/// What the planner learned about one top-level file.
pub struct FileProbe {
    pub name: String,
    pub has_main_guard: bool,
}

/// Hidden directories, double-underscore caches, virtual
/// environments and dependency caches never count as data.
pub open spec fn spec_excluded_dir(name: Seq<char>) -> bool {
    starts_with_spec(name, "."@) || starts_with_spec(name, "__"@) || name == "venv"@ || name
        == ".venv"@ || name == "node_modules"@
}

/// The conventional data-directory names, compared without regard
/// to letter case.
pub open spec fn spec_common_data_name(name: Seq<char>) -> bool {
    ||| eq_ignore_case_spec(name, "config"@)
    ||| eq_ignore_case_spec(name, "templates"@)
    ||| eq_ignore_case_spec(name, "static"@)
    ||| eq_ignore_case_spec(name, "assets"@)
    ||| eq_ignore_case_spec(name, "data"@)
    ||| eq_ignore_case_spec(name, "resources"@)
    ||| eq_ignore_case_spec(name, "public"@)
    ||| eq_ignore_case_spec(name, "views"@)
}

/// A directory qualifies as data when it is not excluded, bears a
/// conventional data name or carries no package marker, and holds at
/// least one regular file.
pub open spec fn spec_is_data_dir(
    name: Seq<char>,
    has_package_marker: bool,
    has_files: bool,
) -> bool {
    !spec_excluded_dir(name) && (spec_common_data_name(name) || !has_package_marker) && has_files
}

/// The data-directory test for one directory probe.
pub fn is_data_directory(name: &str, has_package_marker: bool, has_files: bool) -> (r: bool)
    ensures
        r == spec_is_data_dir(name@, has_package_marker, has_files),
{
    if starts_with_str(name, ".") || starts_with_str(name, "__") || str_eq(name, "venv") || str_eq(
        name,
        ".venv",
    ) || str_eq(name, "node_modules") {
        return false;
    }
    let common = eq_ignore_ascii_case_str(name, "config") || eq_ignore_ascii_case_str(
        name,
        "templates",
    ) || eq_ignore_ascii_case_str(name, "static") || eq_ignore_ascii_case_str(name, "assets")
        || eq_ignore_ascii_case_str(name, "data") || eq_ignore_ascii_case_str(name, "resources")
        || eq_ignore_ascii_case_str(name, "public") || eq_ignore_ascii_case_str(name, "views");
    (common || !has_package_marker) && has_files
}

/// The data directories among the probes, in order.
pub open spec fn spec_data_dirs_of(probes: Seq<DirProbe>) -> Seq<Seq<char>>
    decreases probes.len(),
{
    if probes.len() == 0 {
        Seq::empty()
    } else {
        let prev = spec_data_dirs_of(probes.drop_last());
        let p = probes.last();
        if spec_is_data_dir(p.name@, p.has_package_marker, p.has_files) {
            prev + seq![p.name@]
        } else {
            prev
        }
    }
}

/// Data-directory detection over the top-level directory probes.
pub fn detect_data_directories(probes: &Vec<DirProbe>) -> (r: Vec<String>)
    ensures
        r.deep_view() == spec_data_dirs_of(probes@),
{
    let mut out: Vec<String> = Vec::new();
    let mut i: usize = 0;
    proof {
        assert(probes@.take(0) =~= Seq::<DirProbe>::empty());
    }
    while i < probes.len()
        invariant
            0 <= i <= probes@.len(),
            out.deep_view() == spec_data_dirs_of(probes@.take(i as int)),
        decreases probes@.len() - i,
    {
        let ghost prev_dv = out.deep_view();
        proof {
            assert(probes@.take(i + 1).drop_last() =~= probes@.take(i as int));
            assert(probes@.take(i + 1).last() == probes@[i as int]);
        }
        let p = &probes[i];
        if is_data_directory(p.name.as_str(), p.has_package_marker, p.has_files) {
            out.push(p.name.clone());
            proof {
                assert(out.deep_view() =~= prev_dv + seq![probes@[i as int].name@]);
            }
        }
        i = i + 1;
    }
    proof {
        assert(probes@.take(probes@.len() as int) =~= probes@);
    }
    out
}

pub open spec fn spec_is_python_file(name: Seq<char>) -> bool {
    ends_with_spec(name, ".py"@)
}

pub open spec fn spec_is_js_file(name: Seq<char>) -> bool {
    ends_with_spec(name, ".js"@) || ends_with_spec(name, ".mjs"@) || ends_with_spec(name, ".ts"@)
}

pub open spec fn spec_common_py_entry(name: Seq<char>) -> bool {
    name == "main.py"@ || name == "app.py"@ || name == "run.py"@ || name == "server.py"@ || name
        == "__main__.py"@
}

pub open spec fn spec_common_js_entry(name: Seq<char>) -> bool {
    name == "index.js"@ || name == "main.js"@ || name == "app.js"@ || name == "server.js"@ || name
        == "start.js"@
}

/// How one file changes the ranked candidate list: a well-known
/// entry name goes to the front, a script with a main guard or any
/// other script file goes to the back, anything else is skipped.
pub open spec fn spec_rank_step(acc: Seq<Seq<char>>, name: Seq<char>, guard: bool) -> Seq<
    Seq<char>,
> {
    if spec_is_python_file(name) {
        if spec_common_py_entry(name) {
            seq![name] + acc
        } else if guard {
            acc + seq![name]
        } else {
            acc
        }
    } else if spec_is_js_file(name) {
        if spec_common_js_entry(name) {
            seq![name] + acc
        } else {
            acc + seq![name]
        }
    } else {
        acc
    }
}

/// The ranked entry-file candidates over the file probes, in order.
pub open spec fn spec_entry_candidates(probes: Seq<FileProbe>) -> Seq<Seq<char>>
    decreases probes.len(),
{
    if probes.len() == 0 {
        Seq::empty()
    } else {
        let p = probes.last();
        spec_rank_step(spec_entry_candidates(probes.drop_last()), p.name@, p.has_main_guard)
    }
}

/// A script text carries the conventional main-guard idiom.
pub fn has_main_guard(content: &str) -> (r: bool)
    ensures
        r == (contains_sub(content@, "if __name__"@) && contains_sub(content@, "__main__"@)),
{
    contains_str(content, "if __name__") && contains_str(content, "__main__")
}

/// Entry-file ranking over the top-level file probes.
pub fn detect_entry_candidates(probes: &Vec<FileProbe>) -> (r: Vec<String>)
    ensures
        r.deep_view() == spec_entry_candidates(probes@),
{
    let mut out: Vec<String> = Vec::new();
    let mut i: usize = 0;
    proof {
        assert(probes@.take(0) =~= Seq::<FileProbe>::empty());
    }
    while i < probes.len()
        invariant
            0 <= i <= probes@.len(),
            out.deep_view() == spec_entry_candidates(probes@.take(i as int)),
        decreases probes@.len() - i,
    {
        let ghost prev_dv = out.deep_view();
        proof {
            assert(probes@.take(i + 1).drop_last() =~= probes@.take(i as int));
            assert(probes@.take(i + 1).last() == probes@[i as int]);
        }
        let p = &probes[i];
        let name = p.name.as_str();
        if ends_with_str(name, ".py") {
            if str_eq(name, "main.py") || str_eq(name, "app.py") || str_eq(name, "run.py")
                || str_eq(name, "server.py") || str_eq(name, "__main__.py") {
                out.insert(0, p.name.clone());
                proof {
                    assert(out.deep_view() =~= seq![probes@[i as int].name@] + prev_dv);
                }
            } else if p.has_main_guard {
                out.push(p.name.clone());
                proof {
                    assert(out.deep_view() =~= prev_dv + seq![probes@[i as int].name@]);
                }
            }
        } else if ends_with_str(name, ".js") || ends_with_str(name, ".mjs") || ends_with_str(
            name,
            ".ts",
        ) {
            if str_eq(name, "index.js") || str_eq(name, "main.js") || str_eq(name, "app.js")
                || str_eq(name, "server.js") || str_eq(name, "start.js") {
                out.insert(0, p.name.clone());
                proof {
                    assert(out.deep_view() =~= seq![probes@[i as int].name@] + prev_dv);
                }
            } else {
                out.push(p.name.clone());
                proof {
                    assert(out.deep_view() =~= prev_dv + seq![probes@[i as int].name@]);
                }
            }
        }
        i = i + 1;
    }
    proof {
        assert(probes@.take(probes@.len() as int) =~= probes@);
    }
    out
}

// ---------------------------------------------------------------
// The assembled project structure
// ---------------------------------------------------------------
/// Everything the planner's walk gathered from the project tree,
/// handed in as plain values.
pub struct ProjectListing {
    pub package_dirs: Vec<String>,
    pub dir_probes: Vec<DirProbe>,
    pub file_probes: Vec<FileProbe>,
    pub requirements: Option<String>,
    pub env_file: Option<String>,
    pub frontend: FrontendProbe,
}

/// The build plan facts reported for one project.
pub struct ProjectStructure {
    pub packages: Vec<String>,
    pub data_dirs: Vec<String>,
    pub entry_candidates: Vec<String>,
    pub has_requirements: bool,
    pub requirements_packages: Vec<String>,
    pub has_env: bool,
    pub env_keys: Vec<String>,
    pub has_frontend: bool,
    pub frontend_framework: Option<String>,
}

/// The keys of a pair list, in order.
pub open spec fn keys_of_pairs(pairs: Seq<(Seq<char>, Seq<char>)>) -> Seq<Seq<char>> {
    Seq::new(pairs.len(), |i: int| pairs[i].0)
}

/// Assemble the project structure from the listing: every field is
/// the respective parser or classifier applied to what the walk
/// found.
pub fn scan_project_structure(listing: &ProjectListing) -> (r: ProjectStructure)
    ensures
        r.packages.deep_view() == spec_packages_of(listing.package_dirs.deep_view()),
        r.data_dirs.deep_view() == spec_data_dirs_of(listing.dir_probes@),
        r.entry_candidates.deep_view() == spec_entry_candidates(listing.file_probes@),
        r.has_requirements == (listing.requirements is Some),
        listing.requirements matches Some(c) ==> r.requirements_packages.deep_view()
            == spec_parse_requirements(c@),
        listing.requirements is None ==> r.requirements_packages@.len() == 0,
        r.has_env == (listing.env_file is Some),
        listing.env_file matches Some(c) ==> r.env_keys.deep_view() == keys_of_pairs(
            spec_parse_env(c@),
        ),
        listing.env_file is None ==> r.env_keys@.len() == 0,
        r.has_frontend == (spec_detect_probe(&listing.frontend) is Some),
        r.frontend_framework is Some <==> spec_detect_probe(&listing.frontend) is Some,
        r.frontend_framework matches Some(f) ==> spec_detect_probe(&listing.frontend)
            matches Some(fb) && f@ == fb.0,
{
    let packages = detect_python_packages(&listing.package_dirs);
    let data_dirs = detect_data_directories(&listing.dir_probes);
    let entry_candidates = detect_entry_candidates(&listing.file_probes);
    let (has_requirements, requirements_packages) = match &listing.requirements {
        Some(c) => (true, parse_requirements(c.as_str())),
        None => (false, Vec::new()),
    };
    let (has_env, env_key_list) = match &listing.env_file {
        Some(c) => {
            let entries = parse_env(c.as_str());
            let keys = env_keys(&entries);
            proof {
                assert(keys.deep_view() =~= keys_of_pairs(env_kv_seq(entries@)));
            }
            (true, keys)
        },
        None => (false, Vec::new()),
    };
    let frontend_info = detect_frontend_framework(&listing.frontend);
    let (has_frontend, frontend_framework) = match frontend_info {
        Some(info) => (true, Some(info.framework)),
        None => (false, None),
    };
    ProjectStructure {
        packages,
        data_dirs,
        entry_candidates,
        has_requirements,
        requirements_packages,
        has_env,
        env_keys: env_key_list,
        has_frontend,
        frontend_framework,
    }
}

/// The keys of the parsed entries, in order.
pub open spec fn env_keys_seq(v: Seq<EnvEntry>) -> Seq<Seq<char>> {
    Seq::new(v.len(), |i: int| v[i].key@)
}

/// The keys of an entry list.
pub fn env_keys(entries: &Vec<EnvEntry>) -> (r: Vec<String>)
    ensures
        r.deep_view() == env_keys_seq(entries@),
{
    let mut out: Vec<String> = Vec::new();
    let mut i: usize = 0;
    while i < entries.len()
        invariant
            0 <= i <= entries@.len(),
            out@.len() == i,
            forall|k: int| 0 <= k < i ==> out@[k] == entries@[k].key,
        decreases entries@.len() - i,
    {
        out.push(entries[i].key.clone());
        i = i + 1;
    }
    proof {
        assert(out.deep_view() =~= env_keys_seq(entries@));
    }
    out
}

} // verus!
