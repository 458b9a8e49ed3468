//! The remote collaborators' data: the installer-build request with
//! its documented defaults, the interpretation of the build
//! service's reply, the download locations of remote projects, the
//! project records and the application settings.
use vstd::prelude::*;

verus! {

/// A request for the remote installer build.
pub struct InstallerBuildRequest {
    pub project_path: String,
    pub entry_file: String,
    pub project_name: String,
    pub project_version: Option<String>,
    pub publisher: Option<String>,
    pub language: String,
    pub license_key: Option<String>,
    pub server_url: Option<String>,
    pub license_mode: Option<String>,
    pub distribution_type: String,
    pub create_desktop_shortcut: Option<bool>,
    pub create_start_menu: Option<bool>,
    pub output_dir: Option<String>,
}

/// The payload sent to the build service, every default applied.
pub struct InstallerPayload {
    pub project_name: String,
    pub project_version: String,
    pub publisher: String,
    pub source_dir: String,
    pub entry_file: String,
    pub language: String,
    pub license_key: String,
    pub api_url: String,
    pub license_mode: String,
    pub distribution_type: String,
    pub create_desktop_shortcut: bool,
    pub create_start_menu: bool,
    pub output_dir: String,
}

/// Resolve the installer request: a first version, an unnamed
/// publisher, a generic build key against the local service, both
/// shortcuts, and an output directory under the project.
pub fn resolve_installer_payload(req: &InstallerBuildRequest) -> (r: InstallerPayload)
    ensures
        r.project_name@ == req.project_name@,
        (req.project_version matches Some(v) ==> r.project_version@ == v@),
        (req.project_version is None ==> r.project_version@ == "1.0.0"@),
        (req.publisher matches Some(p) ==> r.publisher@ == p@),
        (req.publisher is None ==> r.publisher@ == "Unknown Publisher"@),
        r.source_dir@ == req.project_path@,
        r.entry_file@ == req.entry_file@,
        r.language@ == req.language@,
        (req.license_key matches Some(k) ==> r.license_key@ == k@),
        (req.license_key is None ==> r.license_key@ == "GENERIC_BUILD"@),
        (req.server_url matches Some(u) ==> r.api_url@ == u@),
        (req.server_url is None ==> r.api_url@ == "http://localhost:8000"@),
        (req.license_mode matches Some(m) ==> r.license_mode@ == m@),
        (req.license_mode is None ==> r.license_mode@ == "generic"@),
        r.distribution_type@ == req.distribution_type@,
        r.create_desktop_shortcut == (match req.create_desktop_shortcut {
            Some(b) => b,
            None => true,
        }),
        r.create_start_menu == (match req.create_start_menu {
            Some(b) => b,
            None => true,
        }),
        (req.output_dir matches Some(d) ==> r.output_dir@ == d@),
        (req.output_dir is None ==> r.output_dir@ == req.project_path@ + "/output"@),
{
    InstallerPayload {
        project_name: req.project_name.clone(),
        project_version: match &req.project_version {
            Some(v) => v.clone(),
            None => String::from_str("1.0.0"),
        },
        publisher: match &req.publisher {
            Some(p) => p.clone(),
            None => String::from_str("Unknown Publisher"),
        },
        source_dir: req.project_path.clone(),
        entry_file: req.entry_file.clone(),
        language: req.language.clone(),
        license_key: match &req.license_key {
            Some(k) => k.clone(),
            None => String::from_str("GENERIC_BUILD"),
        },
        api_url: match &req.server_url {
            Some(u) => u.clone(),
            None => String::from_str("http://localhost:8000"),
        },
        license_mode: match &req.license_mode {
            Some(m) => m.clone(),
            None => String::from_str("generic"),
        },
        distribution_type: req.distribution_type.clone(),
        create_desktop_shortcut: match req.create_desktop_shortcut {
            Some(b) => b,
            None => true,
        },
        create_start_menu: match req.create_start_menu {
            Some(b) => b,
            None => true,
        },
        output_dir: match &req.output_dir {
            Some(d) => d.clone(),
            None => {
                let mut d = req.project_path.clone();
                d.append("/output");
                d
            },
        },
    }
}

/// Interpret the build service's reply fields: a reported success
/// yields the artifact's path and name with placeholders for
/// whatever the reply omitted; anything else yields the reported
/// error or a placeholder.
pub fn interpret_build_reply(
    success: Option<bool>,
    output_path: Option<String>,
    output_name: Option<String>,
    error: Option<String>,
) -> (r: Result<(String, String), String>)
    ensures
        (match success {
            Some(b) => b,
            None => false,
        }) ==> (r matches Ok(pn) && pn.0@ == (match output_path {
            Some(p) => p@,
            None => "unknown"@,
        }) && pn.1@ == (match output_name {
            Some(n) => n@,
            None => "unknown"@,
        })),
        !(match success {
            Some(b) => b,
            None => false,
        }) ==> (r matches Err(e) && e@ == (match error {
            Some(m) => m@,
            None => "Unknown error"@,
        })),
{
    let ok = match success {
        Some(b) => b,
        None => false,
    };
    if ok {
        let path = match output_path {
            Some(p) => p,
            None => String::from_str("unknown"),
        };
        let name = match output_name {
            Some(n) => n,
            None => String::from_str("unknown"),
        };
        Ok((path, name))
    } else {
        Err(
            match error {
                Some(m) => m,
                None => String::from_str("Unknown error"),
            },
        )
    }
}

/// The source-archive address of one remote project.
pub fn project_download_url(server_url: &str, project_id: &str) -> (r: String)
    ensures
        r@ == server_url@ + "/api/v1/projects/"@ + project_id@ + "/download-source"@,
{
    let mut out = server_url.to_owned();
    out.append("/api/v1/projects/");
    out.append(project_id);
    out.append("/download-source");
    out
}

/// Where one remote project's files are kept locally, under the
/// temporary directory.
pub fn project_download_dir(temp_dir: &str, project_id: &str) -> (r: String)
    ensures
        r@ == temp_dir@ + "/license_wrapper_projects/"@ + project_id@,
{
    let mut out = temp_dir.to_owned();
    out.append("/license_wrapper_projects/");
    out.append(project_id);
    out
}

/// One download progress event.
pub struct DownloadProgress {
    pub project_id: String,
    pub progress: u32,
    pub message: String,
    pub stage: String,
}

/// The terminal event of one download.
pub struct DownloadResult {
    pub project_id: String,
    pub success: bool,
    pub extracted_path: Option<String>,
    pub error_message: Option<String>,
}

/// A locally known project.
pub struct Project {
    pub id: String,
    pub name: String,
    pub description: Option<String>,
    pub local_path: Option<String>,
    pub entry_file: Option<String>,
    pub cloud_synced: bool,
    pub created_at: String,
    pub updated_at: String,
}

/// A request to create a local project.
pub struct CreateProjectRequest {
    pub name: String,
    pub description: Option<String>,
    pub local_path: Option<String>,
}

/// Relies on chrono::Utc::now and DateTime::to_rfc3339: the current
/// moment rendered as a timestamp text. Nothing is promised of the
/// clock's value.
#[verifier::external_body]
fn now_rfc3339() -> (r: String) {
    chrono::Utc::now().to_rfc3339()
}

/// Create a local project record: a fresh identifier, the given
/// facts, no entry file yet, not synchronised, and one timestamp
/// for both the creation and the last update.
pub fn create_project(request: CreateProjectRequest) -> (r: Project)
    ensures
        r.name@ == request.name@,
        r.description == request.description,
        r.local_path == request.local_path,
        r.entry_file is None,
        !r.cloud_synced,
        r.created_at@ == r.updated_at@,
        r.id@.len() == 36,
{
    let id = crate::job::fresh_uuid();
    let now = now_rfc3339();
    Project {
        id,
        name: request.name,
        description: request.description,
        local_path: request.local_path,
        entry_file: None,
        cloud_synced: false,
        created_at: now.clone(),
        updated_at: now,
    }
}

/// The application settings.
pub struct AppSettings {
    pub theme: String,
    pub api_url: String,
    pub nuitka_path: String,
    pub python_path: Option<String>,
}

impl Default for AppSettings {
    /// The settings of a fresh installation.
    fn default() -> (r: AppSettings)
        ensures
            r.theme@ == "dark"@,
            r.api_url@ == "https://codevault.parth7.me/api/v1"@,
            r.nuitka_path@.len() == 0,
            r.python_path is None,
    {
        AppSettings {
            theme: String::from_str("dark"),
            api_url: String::from_str("https://codevault.parth7.me/api/v1"),
            nuitka_path: String::new(),
            python_path: None,
        }
    }
}

/// The compiler invocation assumed until one is configured.
pub fn default_compiler_invocation() -> (r: Option<String>)
    ensures
        r matches Some(p) && p@ == "nuitka"@,
{
    Some(String::from_str("nuitka"))
}

} // verus!
