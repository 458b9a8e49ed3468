//! Frontend framework detection: reads the dependency-name sets of a
//! package manifest and matches them against the known framework
//! markers, in a fixed order, to pick the framework and its build
//! command.
use vstd::prelude::*;

use crate::text::contains_sub;
use crate::text::contains_str;
use crate::text::str_eq;

verus! {

/// The dependency names in one object-valued section of a JSON
/// manifest, in the order serde_json keeps them, or `None` when the
/// text is not JSON. A manifest without that section, or whose
/// section is not an object, yields the empty list.
pub uninterp spec fn manifest_keys_of(s: Seq<char>, section: Seq<char>) -> Option<Seq<Seq<char>>>;

/// Relies on serde_json::from_str and serde_json::Map::keys: parses
/// the manifest and lists the keys of one section. serde_json backs
/// its maps with an ordered map, so the result depends on the
/// arguments alone.
#[verifier::external_body]
fn manifest_section_keys(content: &str, section: &str) -> (r: Option<Vec<String>>)
    ensures
        r.deep_view() == manifest_keys_of(content@, section@),
{
    match serde_json::from_str::<serde_json::Value>(content) {
        Err(_) => None,
        Ok(v) => Some(
            match v.get(section).and_then(|d| d.as_object()) {
                Some(obj) => obj.keys().cloned().collect(),
                None => Vec::new(),
            },
        ),
    }
}

/// A detected frontend and how to build it.
pub struct FrontendInfo {
    pub framework: String,
    pub path: String,
    pub has_dist: bool,
    pub build_command: String,
}

/// What the planner learned about the manifest files on disk.
pub struct FrontendProbe {
    pub root_dir: String,
    pub root_manifest: Option<String>,
    pub root_has_dist: bool,
    pub sub_dir: String,
    pub sub_manifest: Option<String>,
    pub sub_has_dist: bool,
}

pub open spec fn any_name_contains(names: Seq<Seq<char>>, needle: Seq<char>) -> bool {
    exists|i: int| 0 <= i < names.len() && contains_sub(names[i], needle)
}

pub open spec fn any_name_equals(names: Seq<Seq<char>>, word: Seq<char>) -> bool {
    exists|i: int| 0 <= i < names.len() && names[i] == word
}

/// The first framework marker found among the dependency and
/// development-dependency names, with its canonical build command.
pub open spec fn spec_framework_of(deps: Seq<Seq<char>>, dev: Seq<Seq<char>>) -> Option<
    (Seq<char>, Seq<char>),
> {
    if any_name_contains(deps, "react"@) || any_name_contains(dev, "react"@) {
        Some(("react"@, "npm run build"@))
    } else if any_name_contains(deps, "vue"@) || any_name_contains(dev, "vue"@) {
        Some(("vue"@, "npm run build"@))
    } else if any_name_contains(deps, "@angular"@) || any_name_contains(dev, "@angular"@) {
        Some(("angular"@, "ng build"@))
    } else if any_name_equals(deps, "next"@) || any_name_equals(dev, "next"@) {
        Some(("next"@, "npm run build"@))
    } else if any_name_equals(deps, "vite"@) || any_name_equals(dev, "vite"@) {
        Some(("vite"@, "npm run build"@))
    } else {
        None
    }
}

/// Detection over the two optional section listings: nothing is
/// detected when the manifest was not JSON.
pub open spec fn spec_detect(
    deps: Option<Seq<Seq<char>>>,
    dev: Option<Seq<Seq<char>>>,
) -> Option<(Seq<char>, Seq<char>)> {
    match (deps, dev) {
        (Some(d), Some(v)) => spec_framework_of(d, v),
        _ => None,
    }
}

/// What `detect_frontend_in_dir` finds in one manifest.
pub open spec fn spec_detect_manifest(manifest: Seq<char>) -> Option<(Seq<char>, Seq<char>)> {
    spec_detect(
        manifest_keys_of(manifest, "dependencies"@),
        manifest_keys_of(manifest, "devDependencies"@),
    )
}

fn any_dep_contains(names: &Vec<String>, needle: &str) -> (r: bool)
    ensures
        r == any_name_contains(names.deep_view(), needle@),
{
    let ghost dv = names.deep_view();
    let mut i: usize = 0;
    while i < names.len()
        invariant
            0 <= i <= names@.len(),
            dv == names.deep_view(),
            dv.len() == names@.len(),
            forall|k: int| 0 <= k < i ==> !contains_sub(dv[k], needle@),
        decreases names@.len() - i,
    {
        if contains_str(names[i].as_str(), needle) {
            proof {
                assert(dv[i as int] == names@[i as int]@);
            }
            return true;
        }
        proof {
            assert(dv[i as int] == names@[i as int]@);
        }
        i = i + 1;
    }
    false
}

fn any_dep_equals(names: &Vec<String>, word: &str) -> (r: bool)
    ensures
        r == any_name_equals(names.deep_view(), word@),
{
    let ghost dv = names.deep_view();
    let mut i: usize = 0;
    while i < names.len()
        invariant
            0 <= i <= names@.len(),
            dv == names.deep_view(),
            dv.len() == names@.len(),
            forall|k: int| 0 <= k < i ==> dv[k] != word@,
        decreases names@.len() - i,
    {
        if str_eq(names[i].as_str(), word) {
            proof {
                assert(dv[i as int] == names@[i as int]@);
            }
            return true;
        }
        proof {
            assert(dv[i as int] == names@[i as int]@);
        }
        i = i + 1;
    }
    false
}

/// The framework markers matched against two dependency-name lists.
/// Returns the framework name and its canonical build command.
pub fn framework_of_deps(deps: &Vec<String>, dev: &Vec<String>) -> (r: Option<(String, String)>)
    ensures
        r is Some <==> spec_framework_of(deps.deep_view(), dev.deep_view()) is Some,
        r matches Some(fb) ==> spec_framework_of(deps.deep_view(), dev.deep_view()) matches Some(
            sfb,
        ) && fb.0@ == sfb.0 && fb.1@ == sfb.1,
{
    if any_dep_contains(deps, "react") || any_dep_contains(dev, "react") {
        Some((String::from_str("react"), String::from_str("npm run build")))
    } else if any_dep_contains(deps, "vue") || any_dep_contains(dev, "vue") {
        Some((String::from_str("vue"), String::from_str("npm run build")))
    } else if any_dep_contains(deps, "@angular") || any_dep_contains(dev, "@angular") {
        Some((String::from_str("angular"), String::from_str("ng build")))
    } else if any_dep_equals(deps, "next") || any_dep_equals(dev, "next") {
        Some((String::from_str("next"), String::from_str("npm run build")))
    } else if any_dep_equals(deps, "vite") || any_dep_equals(dev, "vite") {
        Some((String::from_str("vite"), String::from_str("npm run build")))
    } else {
        None
    }
}

/// Framework detection over one directory's manifest text.
pub fn detect_frontend_in_dir(dir: &str, manifest: &str, has_dist: bool) -> (r: Option<
    FrontendInfo,
>)
    ensures
        r is Some <==> spec_detect_manifest(manifest@) is Some,
        r matches Some(info) ==> spec_detect_manifest(manifest@) matches Some(fb)
            && info.framework@ == fb.0 && info.build_command@ == fb.1 && info.path@ == dir@
            && info.has_dist == has_dist,
{
    let deps = manifest_section_keys(manifest, "dependencies");
    let dev = manifest_section_keys(manifest, "devDependencies");
    match (deps, dev) {
        (Some(d), Some(v)) => match framework_of_deps(&d, &v) {
            Some((framework, build_command)) => Some(
                FrontendInfo {
                    framework,
                    path: dir.to_owned(),
                    has_dist,
                    build_command,
                },
            ),
            None => None,
        },
        _ => None,
    }
}

/// What `detect_frontend_framework` finds given the probe: the root
/// manifest when it exists, else the conventional subdirectory.
pub open spec fn spec_detect_probe(probe: &FrontendProbe) -> Option<(Seq<char>, Seq<char>)> {
    match probe.root_manifest {
        Some(m) => spec_detect_manifest(m@),
        None => match probe.sub_manifest {
            Some(m) => spec_detect_manifest(m@),
            None => None,
        },
    }
}

/// Frontend detection for a project: the root manifest is read when
/// present, and otherwise the conventional frontend subdirectory's.
pub fn detect_frontend_framework(probe: &FrontendProbe) -> (r: Option<FrontendInfo>)
    ensures
        r is Some <==> spec_detect_probe(probe) is Some,
        r matches Some(info) ==> (spec_detect_probe(probe) matches Some(fb) && info.framework@
            == fb.0 && info.build_command@ == fb.1) && (probe.root_manifest is Some ==> (
        info.path@ == probe.root_dir@ && info.has_dist == probe.root_has_dist)) && (
        probe.root_manifest is None ==> (info.path@ == probe.sub_dir@ && info.has_dist
            == probe.sub_has_dist)),
{
    match &probe.root_manifest {
        Some(m) => detect_frontend_in_dir(probe.root_dir.as_str(), m.as_str(), probe.root_has_dist),
        None => match &probe.sub_manifest {
            Some(m) => detect_frontend_in_dir(
                probe.sub_dir.as_str(),
                m.as_str(),
                probe.sub_has_dist,
            ),
            None => None,
        },
    }
}

} // verus!
