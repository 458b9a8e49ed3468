//! Interpretation of prerequisite probes: the version checks of the
//! interpreter, the packaging tools and the installer builder, and
//! the outcome messages of the installer runs. The probes
//! themselves run child processes; what they printed is interpreted
//! here.
use vstd::prelude::*;

use crate::text::contains_sub;
use crate::text::contains_str;
use crate::text::replace_all;
use crate::text::replace_all_spec;
use crate::text::split_lines;
use crate::text::split_lines_spec;
use crate::text::trim_spec;
use crate::text::trim_str;

verus! {

/// The interpreter's installation status.
pub struct PythonStatus {
    pub installed: bool,
    pub version: Option<String>,
    pub path: Option<String>,
}

/// The packaging tool's installation status.
pub struct NuitkaStatus {
    pub installed: bool,
    pub version: Option<String>,
}

/// The runtime's installation status for the bundled-runtime
/// backend.
pub struct NodeStatus {
    pub installed: bool,
    pub version: Option<String>,
    pub path: Option<String>,
}

/// The bundled-runtime packager's availability.
pub struct PkgStatus {
    pub installed: bool,
    pub version: Option<String>,
}

/// The package manager's installation status.
pub struct NpmStatus {
    pub installed: bool,
    pub version: Option<String>,
}

/// The optional obfuscator's installation status.
pub struct ObfuscatorStatus {
    pub installed: bool,
    pub version: Option<String>,
}

/// The installer builder's installation status.
pub struct NsisStatus {
    pub installed: bool,
    pub version: Option<String>,
    pub path: Option<String>,
}

/// The version line a probe printed: interpreters report it on
/// either stream.
pub open spec fn spec_version_pick(stdout: Seq<char>, stderr: Seq<char>) -> Seq<char> {
    if stdout.len() > 0 {
        stdout
    } else {
        stderr
    }
}

/// Interpret the interpreter probe: on success, the version line
/// comes from whichever stream carried it, trimmed and with the
/// product prefix dropped, and the reported path is the trimmed
/// output of the path query.
pub fn parse_python_probe(
    success: bool,
    stdout: &str,
    stderr: &str,
    path_stdout: Option<&str>,
) -> (r: PythonStatus)
    ensures
        r.installed == success,
        success ==> (r.version matches Some(v) && v@ == replace_all_spec(
            trim_spec(spec_version_pick(stdout@, stderr@)),
            "Python "@,
            ""@,
        )),
        success ==> (match path_stdout {
            Some(p) => (r.path matches Some(rp) && rp@ == trim_spec(p@)),
            None => r.path is None,
        }),
        !success ==> r.version is None && r.path is None,
{
    if !success {
        return PythonStatus { installed: false, version: None, path: None };
    }
    let picked = if stdout.unicode_len() > 0 {
        stdout
    } else {
        stderr
    };
    let version = replace_all(trim_str(picked), "Python ", "");
    let path = match path_stdout {
        Some(p) => Some(trim_str(p).to_owned()),
        None => None,
    };
    PythonStatus { installed: true, version: Some(version), path }
}

/// The first line of a probe's output, trimmed; empty output gives
/// an empty line.
pub open spec fn spec_first_line_trimmed(s: Seq<char>) -> Seq<char> {
    if split_lines_spec(s).len() > 0 {
        trim_spec(split_lines_spec(s)[0])
    } else {
        Seq::empty()
    }
}

fn first_line_trimmed(s: &str) -> (r: String)
    ensures
        r@ == spec_first_line_trimmed(s@),
{
    let lines = split_lines(s);
    if lines.len() > 0 {
        proof {
            assert(lines.deep_view()[0] == lines@[0]@);
        }
        trim_str(lines[0].as_str()).to_owned()
    } else {
        proof {
            assert(split_lines_spec(s@).len() == 0);
        }
        String::new()
    }
}

/// Interpret the packaging tool probe: its version is the first
/// line it printed.
pub fn parse_nuitka_probe(success: bool, stdout: &str) -> (r: NuitkaStatus)
    ensures
        r.installed == success,
        success ==> (r.version matches Some(v) && v@ == spec_first_line_trimmed(stdout@)),
        !success ==> r.version is None,
{
    if success {
        NuitkaStatus { installed: true, version: Some(first_line_trimmed(stdout)) }
    } else {
        NuitkaStatus { installed: false, version: None }
    }
}

/// The version query's outcome: the trimmed output, or a fixed
/// message naming the missing tool.
pub fn parse_version_output(success: bool, stdout: &str) -> (r: Result<String, String>)
    ensures
        success ==> (r matches Ok(v) && v@ == trim_spec(stdout@)),
        !success ==> (r matches Err(m) && m@ == "Nuitka not found"@),
{
    if success {
        Ok(trim_str(stdout).to_owned())
    } else {
        Err(String::from_str("Nuitka not found"))
    }
}

/// Interpret the runtime probe: the version is trimmed and loses
/// every letter vee, and the path is the first line the lookup
/// printed.
pub fn parse_node_probe(success: bool, stdout: &str, where_stdout: Option<&str>) -> (r:
    NodeStatus)
    ensures
        r.installed == success,
        success ==> (r.version matches Some(v) && v@ == replace_all_spec(
            trim_spec(stdout@),
            "v"@,
            ""@,
        )),
        success ==> (match where_stdout {
            Some(w) => (r.path matches Some(p) && p@ == spec_first_line_trimmed(w@)),
            None => r.path is None,
        }),
        !success ==> r.version is None && r.path is None,
{
    if !success {
        return NodeStatus { installed: false, version: None, path: None };
    }
    let version = replace_all(trim_str(stdout), "v", "");
    let path = match where_stdout {
        Some(w) => Some(first_line_trimmed(w)),
        None => None,
    };
    NodeStatus { installed: true, version: Some(version), path }
}

/// Interpret the packager probe: a working runner means the
/// packager is available, its cached version reported when known.
pub fn parse_pkg_probe(npx_success: bool, pkg_version_stdout: Option<&str>) -> (r: PkgStatus)
    ensures
        r.installed == npx_success,
        npx_success ==> (match pkg_version_stdout {
            Some(s) => (r.version matches Some(v) && v@ == trim_spec(s@)),
            None => (r.version matches Some(v) && v@ == "via npx"@),
        }),
        !npx_success ==> r.version is None,
{
    if !npx_success {
        return PkgStatus { installed: false, version: None };
    }
    let version = match pkg_version_stdout {
        Some(s) => trim_str(s).to_owned(),
        None => String::from_str("via npx"),
    };
    PkgStatus { installed: true, version: Some(version) }
}

/// Interpret the package-manager probe.
pub fn parse_npm_probe(success: bool, stdout: &str) -> (r: NpmStatus)
    ensures
        r.installed == success,
        success ==> (r.version matches Some(v) && v@ == trim_spec(stdout@)),
        !success ==> r.version is None,
{
    if success {
        NpmStatus { installed: true, version: Some(trim_str(stdout).to_owned()) }
    } else {
        NpmStatus { installed: false, version: None }
    }
}

/// Interpret the obfuscator probe.
pub fn parse_obfuscator_probe(success: bool, stdout: &str) -> (r: ObfuscatorStatus)
    ensures
        r.installed == success,
        success ==> (r.version matches Some(v) && v@ == trim_spec(stdout@)),
        !success ==> r.version is None,
{
    if success {
        ObfuscatorStatus { installed: true, version: Some(trim_str(stdout).to_owned()) }
    } else {
        ObfuscatorStatus { installed: false, version: None }
    }
}

/// The fixed places the installer builder is looked for before the
/// path lookup runs.
pub fn nsis_candidate_paths() -> (r: Vec<String>)
    ensures
        r.deep_view() =~= seq![
            "C:\\Program Files (x86)\\NSIS\\makensis.exe"@,
            "C:\\Program Files\\NSIS\\makensis.exe"@,
        ],
{
    let mut out: Vec<String> = Vec::new();
    out.push(String::from_str("C:\\Program Files (x86)\\NSIS\\makensis.exe"));
    out.push(String::from_str("C:\\Program Files\\NSIS\\makensis.exe"));
    proof {
        assert(out.deep_view() =~= seq![
            "C:\\Program Files (x86)\\NSIS\\makensis.exe"@,
            "C:\\Program Files\\NSIS\\makensis.exe"@,
        ]);
    }
    out
}

/// Interpret the installer-builder probe: a known location wins,
/// else the path lookup's first line; the version is its query's
/// trimmed output where one ran.
pub fn interpret_nsis_probe(
    known_path: Option<String>,
    where_stdout: Option<&str>,
    version_stdout: Option<&str>,
) -> (r: NsisStatus)
    ensures
        (known_path matches Some(p) ==> r.installed && (r.path matches Some(rp) && rp@ == p@)),
        known_path is None ==> (match where_stdout {
            Some(w) => r.installed && (r.path matches Some(rp) && rp@ == spec_first_line_trimmed(
                w@,
            )),
            None => !r.installed && r.path is None && r.version is None,
        }),
        (known_path is Some || where_stdout is Some) ==> (match version_stdout {
            Some(s) => (r.version matches Some(v) && v@ == trim_spec(s@)),
            None => r.version is None,
        }),
{
    match known_path {
        Some(p) => {
            let version = match version_stdout {
                Some(s) => Some(trim_str(s).to_owned()),
                None => None,
            };
            NsisStatus { installed: true, version, path: Some(p) }
        },
        None => {
            match where_stdout {
                Some(w) => {
                    let version = match version_stdout {
                        Some(s) => Some(trim_str(s).to_owned()),
                        None => None,
                    };
                    NsisStatus { installed: true, version, path: Some(first_line_trimmed(w)) }
                },
                None => NsisStatus { installed: false, version: None, path: None },
            }
        },
    }
}

/// The outcome message of the packaging-tool installation.
pub fn nuitka_install_outcome(success: bool, stdout: &str, stderr: &str) -> (r: Result<
    String,
    String,
>)
    ensures
        success ==> (r matches Ok(m) && m@ == "Nuitka installed successfully!\n"@ + stdout@),
        !success ==> (r matches Err(m) && m@ == "Installation failed: "@ + stderr@),
{
    if success {
        let mut m = String::from_str("Nuitka installed successfully!\n");
        m.append(stdout);
        Ok(m)
    } else {
        let mut m = String::from_str("Installation failed: ");
        m.append(stderr);
        Err(m)
    }
}

/// The outcome message of the image-library installation.
pub fn pillow_install_outcome(success: bool, stderr: &str) -> (r: Result<String, String>)
    ensures
        success ==> (r matches Ok(m) && m@ == "Pillow installed successfully!"@),
        !success ==> (r matches Err(m) && m@ == "Installation failed: "@ + stderr@),
{
    if success {
        Ok(String::from_str("Pillow installed successfully!"))
    } else {
        let mut m = String::from_str("Installation failed: ");
        m.append(stderr);
        Err(m)
    }
}

/// The outcome message of the bundled-runtime packager check: the
/// runner downloads the packager on demand, so a working runner is
/// all that installation needs.
pub fn pkg_install_outcome(npx_success: bool) -> (r: Result<String, String>)
    ensures
        npx_success ==> (r matches Ok(m) && m@
            == "pkg is available via npx! No installation needed - npx will download it automatically when building."@),
        !npx_success ==> (r matches Err(m) && m@
            == "npx not found. Please reinstall Node.js to get npx."@),
{
    if npx_success {
        Ok(
            String::from_str(
                "pkg is available via npx! No installation needed - npx will download it automatically when building.",
            ),
        )
    } else {
        Err(String::from_str("npx not found. Please reinstall Node.js to get npx."))
    }
}

/// Interpret the icon conversion: on success the produced icon's
/// path, otherwise a pointed hint when the image library is absent,
/// else the raw error.
pub fn interpret_ico_conversion(success: bool, ico_path: &str, stderr: &str) -> (r: Result<
    String,
    String,
>)
    ensures
        success ==> (r matches Ok(p) && p@ == ico_path@),
        !success && contains_sub(stderr@, "No module named 'PIL'"@) ==> (r matches Err(m) && m@
            == "Pillow not installed. Run: pip install Pillow"@),
        !success && !contains_sub(stderr@, "No module named 'PIL'"@) ==> (r matches Err(m) && m@
            == "Conversion failed: "@ + stderr@),
{
    if success {
        Ok(ico_path.to_owned())
    } else if contains_str(stderr, "No module named 'PIL'") {
        Err(String::from_str("Pillow not installed. Run: pip install Pillow"))
    } else {
        let mut m = String::from_str("Conversion failed: ");
        m.append(stderr);
        Err(m)
    }
}

} // verus!
