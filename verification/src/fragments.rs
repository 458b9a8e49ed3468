//! The pure code-fragment generators of the source instrumenter:
//! the validation bootstrap, the timed-demo gate, baked environment
//! defaults, the first-run dependency installer, the launcher script
//! and the icon-conversion helper. Each returns text assembled from
//! fixed parts and the given values, with all escaping kept here.
use vstd::prelude::*;

use crate::digits::dec_digits_spec;
use crate::digits::u64_to_string;
use crate::plan::EnvEntry;
use crate::plan::env_kv_seq;
use crate::protocol::EmbeddedCredential;
use crate::text::contains_sub;
use crate::text::contains_str;
use crate::text::replace_all;
use crate::text::replace_all_spec;

verus! {

// ---------------------------------------------------------------
// Baked environment defaults
// ---------------------------------------------------------------
pub const ENV_FRAGMENT_HEAD: &'static str = "# ============ BAKED ENVIRONMENT VARIABLES ============\nimport os as _env_os\n";

pub const ENV_FRAGMENT_TAIL: &'static str = "# ============ END BAKED ENVIRONMENT ============\n\n";

pub const ENV_STMT_OPEN: &'static str = "_env_os.environ.setdefault(\"";

pub const ENV_STMT_MID: &'static str = "\", \"";

pub const ENV_STMT_CLOSE: &'static str = "\")\n";

/// A value made safe for embedding between double quotes:
/// backslashes doubled first, then double quotes escaped.
pub open spec fn spec_escape_env_value(v: Seq<char>) -> Seq<char> {
    replace_all_spec(replace_all_spec(v, "\\"@, "\\\\"@), "\""@, "\\\""@)
}

/// One default-set statement.
pub open spec fn spec_env_stmt(key: Seq<char>, value: Seq<char>) -> Seq<char> {
    ENV_STMT_OPEN@ + key + ENV_STMT_MID@ + spec_escape_env_value(value) + ENV_STMT_CLOSE@
}

/// The statements for all pairs, in order.
pub open spec fn spec_env_stmts(pairs: Seq<(Seq<char>, Seq<char>)>) -> Seq<char>
    decreases pairs.len(),
{
    if pairs.len() == 0 {
        Seq::empty()
    } else {
        spec_env_stmts(pairs.drop_last()) + spec_env_stmt(pairs.last().0, pairs.last().1)
    }
}

/// The whole environment-defaults fragment.
pub open spec fn spec_env_fragment(pairs: Seq<(Seq<char>, Seq<char>)>) -> Seq<char> {
    ENV_FRAGMENT_HEAD@ + spec_env_stmts(pairs) + ENV_FRAGMENT_TAIL@
}

/// Escape one value for embedding.
pub fn escape_env_value(v: &str) -> (r: String)
    ensures
        r@ == spec_escape_env_value(v@),
{
    let doubled = replace_all(v, "\\", "\\\\");
    replace_all(doubled.as_str(), "\"", "\\\"")
}

/// The environment-defaults fragment: one default-set statement per
/// entry, values escaped for embedding.
pub fn env_fragment(entries: &Vec<EnvEntry>) -> (r: String)
    ensures
        r@ == spec_env_fragment(env_kv_seq(entries@)),
{
    let ghost pairs = env_kv_seq(entries@);
    let mut body = String::new();
    let mut i: usize = 0;
    proof {
        assert(pairs.take(0) =~= Seq::<(Seq<char>, Seq<char>)>::empty());
    }
    while i < entries.len()
        invariant
            0 <= i <= entries@.len(),
            pairs == env_kv_seq(entries@),
            pairs.len() == entries@.len(),
            body@ == spec_env_stmts(pairs.take(i as int)),
        decreases entries@.len() - i,
    {
        proof {
            assert(pairs.take(i + 1).drop_last() =~= pairs.take(i as int));
            assert(pairs.take(i + 1).last() == pairs[i as int]);
        }
        body.append(ENV_STMT_OPEN);
        body.append(entries[i].key.as_str());
        body.append(ENV_STMT_MID);
        let escaped = escape_env_value(entries[i].value.as_str());
        body.append(escaped.as_str());
        body.append(ENV_STMT_CLOSE);
        i = i + 1;
    }
    proof {
        assert(pairs.take(entries@.len() as int) =~= pairs);
    }
    let mut out = String::from_str(ENV_FRAGMENT_HEAD);
    out.append(body.as_str());
    out.append(ENV_FRAGMENT_TAIL);
    out
}

// ---------------------------------------------------------------
// First-run dependency installer
// ---------------------------------------------------------------
/// The marker that makes repeated injection across jobs harmless.
pub const DEPS_INSTALLER_MARKER: &'static str = "AUTO-DEPENDENCY INSTALLER";

pub const DEPS_INSTALLER_FRAGMENT: &'static str = r#"# ============ AUTO-DEPENDENCY INSTALLER ============
import subprocess as _dep_subprocess
import sys as _dep_sys
import os as _dep_os
from pathlib import Path as _dep_Path

def _lw_install_deps():
    """Install dependencies from requirements.txt on first run."""
    try:
        if getattr(_dep_sys, 'frozen', False):
            base_dir = _dep_Path(_dep_sys.executable).parent
        else:
            base_dir = _dep_Path(__file__).parent

        req_file = base_dir / 'requirements.txt'
        marker_file = base_dir / '.deps_installed'

        if req_file.exists() and not marker_file.exists():
            print("[Setup] First run detected. Installing dependencies...")
            print(f"[Setup] Reading requirements from: {req_file}")

            result = _dep_subprocess.run(
                [_dep_sys.executable, '-m', 'pip', 'install', '-r', str(req_file)],
                capture_output=True,
                text=True
            )

            if result.returncode == 0:
                marker_file.write_text('1')
                print("[Setup] Dependencies installed successfully!")
            else:
                print(f"[Setup] Warning: pip install had issues: {result.stderr}")
    except Exception as e:
        print(f"[Setup] Warning: Could not install dependencies: {e}")

_lw_install_deps()
# ============ END AUTO-DEPENDENCY INSTALLER ============

"#;

/// The installer fragment text.
pub fn deps_installer_fragment() -> (r: String)
    ensures
        r@ == DEPS_INSTALLER_FRAGMENT@,
{
    String::from_str(DEPS_INSTALLER_FRAGMENT)
}

/// Whether the entry file still needs the installer: text already
/// carrying the marker is left alone, so injection is idempotent
/// across unrelated jobs.
pub fn needs_deps_installer(content: &str) -> (r: bool)
    ensures
        r == !contains_sub(content@, DEPS_INSTALLER_MARKER@),
{
    !contains_str(content, DEPS_INSTALLER_MARKER)
}

// ---------------------------------------------------------------
// Validation bootstrap
// ---------------------------------------------------------------
pub const LICENSE_PART_A: &'static str = r#"# ============ LICENSE WRAPPER - DO NOT REMOVE ============
import sys as _lw_sys
import os as _lw_os
import hashlib as _lw_hash
import json as _lw_json
import time as _lw_time
import platform as _lw_platform
from pathlib import Path as _lw_Path

# Grace period: 24 hours (in seconds)
_LW_GRACE_PERIOD = 24 * 60 * 60

def _lw_get_hwid():
    """Generate hardware ID."""
    try:
        info = f"{_lw_platform.node()}|{_lw_platform.machine()}|{_lw_platform.processor()}"
        return _lw_hash.sha256(info.encode()).hexdigest()[:32]
    except:
        return "unknown-hwid"

def _lw_get_cache_path():
    """Get path to license cache file."""
    appdata = _lw_os.getenv('LOCALAPPDATA', _lw_os.path.expanduser('~'))
    cache_dir = _lw_Path(appdata) / '.license_wrapper'
    cache_dir.mkdir(exist_ok=True)
    return cache_dir / f"license_{_lw_hash.md5('"#;

pub const LICENSE_PART_B: &'static str = r#"'.encode()).hexdigest()[:8]}.json"

def _lw_load_cache():
    """Load cached license info."""
    try:
        cache_path = _lw_get_cache_path()
        if cache_path.exists():
            with open(cache_path, 'r') as f:
                return _lw_json.load(f)
    except:
        pass
    return None

def _lw_save_cache(valid: bool):
    """Save license validation result to cache."""
    try:
        cache_path = _lw_get_cache_path()
        with open(cache_path, 'w') as f:
            _lw_json.dump({
                'license_key': '"#;

pub const LICENSE_PART_C: &'static str = r#"',
                'last_validated': int(_lw_time.time()),
                'valid': valid,
                'hwid': _lw_get_hwid()
            }, f)
    except:
        pass

def _lw_check_grace_period():
    """Check if we're within the offline grace period."""
    cache = _lw_load_cache()
    if cache and cache.get('valid'):
        last_validated = cache.get('last_validated', 0)
        elapsed = int(_lw_time.time()) - last_validated
        if elapsed < _LW_GRACE_PERIOD:
            remaining = (_LW_GRACE_PERIOD - elapsed) // 3600
            print(f"[Offline Mode] Using cached validation ({remaining}h remaining)")
            return True
        else:
            print("[!] Offline grace period expired. Please connect to the internet.")
            return False
    return False

def _lw_validate():
    """Validate license with server."""
    LICENSE_KEY = ""#;

pub const LICENSE_PART_D: &'static str = r#""
    SERVER_URL = ""#;

pub const LICENSE_PART_E: &'static str = r#""

    # Skip validation for DEMO mode
    if LICENSE_KEY == "DEMO" or LICENSE_KEY == "":
        print("[License Wrapper] Running in DEMO mode")
        return True

    try:
        import urllib.request
        import urllib.error

        hwid = _lw_get_hwid()
        nonce = _lw_hash.sha256(str(_lw_time.time()).encode()).hexdigest()[:32]

        payload = _lw_json.dumps({
            "license_key": LICENSE_KEY,
            "hwid": hwid,
            "machine_name": _lw_platform.node(),
            "nonce": nonce,
            "timestamp": int(_lw_time.time())
        }).encode('utf-8')

        req = urllib.request.Request(
            SERVER_URL + "/api/v1/license/validate",
            data=payload,
            headers={"Content-Type": "application/json"}
        )

        with urllib.request.urlopen(req, timeout=15) as resp:
            result = _lw_json.loads(resp.read().decode('utf-8'))

            if result.get("status") == "valid":
                print("[OK] License validated successfully")
                _lw_save_cache(True)
                return True
            else:
                msg = result.get("message", "License invalid")
                print(f"[ERROR] License error: {msg}")
                _lw_save_cache(False)
                input("Press Enter to exit...")
                _lw_sys.exit(1)

    except urllib.error.URLError as e:
        print(f"[!] Could not reach license server: {e.reason}")
        if _lw_check_grace_period():
            return True
        else:
            print("[ERROR] Cannot verify license. Please ensure the license server is reachable.")
            input("Press Enter to exit...")
            _lw_sys.exit(1)
    except Exception as e:
        print(f"[!] License validation error: {e}")
        input("Press Enter to exit...")
        _lw_sys.exit(1)

# Validate on startup
_lw_validate()
# ============ END LICENSE WRAPPER ============

"#;

/// The validation bootstrap with the credential literals baked in:
/// the key names the cache file, is written to the cache, and is
/// compared against the sentinel; the server address follows it.
pub open spec fn spec_license_fragment(key: Seq<char>, server_url: Seq<char>) -> Seq<char> {
    LICENSE_PART_A@ + key + LICENSE_PART_B@ + key + LICENSE_PART_C@ + key + LICENSE_PART_D@
        + server_url + LICENSE_PART_E@
}

/// Generate the validation bootstrap.
pub fn license_fragment(license_key: &str, server_url: &str) -> (r: String)
    ensures
        r@ == spec_license_fragment(license_key@, server_url@),
{
    let mut out = String::from_str(LICENSE_PART_A);
    out.append(license_key);
    out.append(LICENSE_PART_B);
    out.append(license_key);
    out.append(LICENSE_PART_C);
    out.append(license_key);
    out.append(LICENSE_PART_D);
    out.append(server_url);
    out.append(LICENSE_PART_E);
    out
}

// ---------------------------------------------------------------
// Timed demo gate
// ---------------------------------------------------------------
pub const DEMO_PART_A: &'static str = r#"
# ============ DEMO MODE - TIME LIMITED ============
import time as _demo_time
import json as _demo_json
from pathlib import Path as _demo_Path

def _lw_check_demo():
    '''Check if demo period has expired.'''
    DEMO_DURATION_SECONDS = "#;

pub const DEMO_PART_B: &'static str = r#" * 60  # minutes: "#;

pub const DEMO_PART_C: &'static str = r#"

    appdata = _lw_os.getenv('LOCALAPPDATA', _lw_os.path.expanduser('~'))
    demo_dir = _demo_Path(appdata) / '.license_wrapper'
    demo_dir.mkdir(exist_ok=True)
    demo_file = demo_dir / 'demo_started.json'

    try:
        if demo_file.exists():
            with open(demo_file, 'r') as f:
                data = _demo_json.load(f)
                start_time = data.get('start_time', 0)
        else:
            start_time = int(_demo_time.time())
            with open(demo_file, 'w') as f:
                _demo_json.dump({'start_time': start_time}, f)
            print(f"[DEMO] Trial started. You have {DEMO_DURATION_SECONDS // 60} minutes to evaluate.")

        elapsed = int(_demo_time.time()) - start_time
        remaining = DEMO_DURATION_SECONDS - elapsed

        if remaining <= 0:
            print("[DEMO EXPIRED] Your trial period has ended.")
            print("[DEMO EXPIRED] Please purchase a license to continue using this software.")
            input("Press Enter to exit...")
            _lw_sys.exit(1)
        else:
            remaining_mins = remaining // 60
            print(f"[DEMO] Trial mode: {remaining_mins} minutes remaining")
            return True

    except Exception as e:
        print(f"[DEMO] Error checking demo status: {e}")
        return True

_lw_check_demo()
# ============ END DEMO MODE ============

"#;

/// The timed-demo gate with the duration baked in twice: once in
/// the limit, once in the comment beside it.
pub open spec fn spec_demo_fragment(duration_minutes: u32) -> Seq<char> {
    DEMO_PART_A@ + dec_digits_spec(duration_minutes as int) + DEMO_PART_B@ + dec_digits_spec(
        duration_minutes as int,
    ) + DEMO_PART_C@
}

/// Generate the timed-demo gate.
pub fn demo_fragment(duration_minutes: u32) -> (r: String)
    ensures
        r@ == spec_demo_fragment(duration_minutes),
{
    let digits = u64_to_string(duration_minutes as u64);
    let mut out = String::from_str(DEMO_PART_A);
    out.append(digits.as_str());
    out.append(DEMO_PART_B);
    out.append(digits.as_str());
    out.append(DEMO_PART_C);
    out
}

/// The whole instrumentation text for one credential: the
/// validation bootstrap, then the demo gate only when demo mode is
/// on with a positive duration.
pub open spec fn spec_instrumentation_fragment(cred: &EmbeddedCredential) -> Seq<char> {
    spec_license_fragment(cred.license_key@, cred.server_url@) + (
    if cred.demo_mode && cred.demo_duration_minutes > 0 {
        spec_demo_fragment(cred.demo_duration_minutes)
    } else {
        Seq::empty()
    })
}

/// Generate the whole instrumentation text for one credential.
pub fn instrumentation_fragment(cred: &EmbeddedCredential) -> (r: String)
    ensures
        r@ == spec_instrumentation_fragment(cred),
{
    let mut out = license_fragment(cred.license_key.as_str(), cred.server_url.as_str());
    if cred.demo_mode && cred.demo_duration_minutes > 0 {
        let demo = demo_fragment(cred.demo_duration_minutes);
        out.append(demo.as_str());
    } else {
        proof {
            assert(out@ + Seq::<char>::empty() =~= out@);
        }
    }
    out
}

// ---------------------------------------------------------------
// The bundled-runtime validation wrapper and its bootstrap
// ---------------------------------------------------------------
/// The validation endpoint under a server address.
pub fn validate_endpoint_url(server_url: &str) -> (r: String)
    ensures
        r@ == server_url@ + "/api/v1/license/validate"@,
{
    let mut out = server_url.to_owned();
    out.append("/api/v1/license/validate");
    out
}

pub const JS_LICENSE_PART_A: &'static str = r#"
const crypto = require('crypto');
const os = require('os');

// License Configuration
const LICENSE_KEY = '"#;

pub const JS_LICENSE_PART_B: &'static str = r#"';
const API_URL = '"#;

pub const JS_LICENSE_PART_C: &'static str = r#"';

function getHWID() {
    try {
        const cpus = os.cpus();
        const cpuModel = cpus && cpus.length > 0 ? cpus[0].model : 'generic';
        const info = `${os.hostname()}|${os.platform()}|${os.arch()}|${os.totalmem()}|${cpuModel}`;
        return crypto.createHash('sha256').update(info).digest('hex');
    } catch (e) {
        return 'unknown-hwid';
    }
}

function validateLicense() {
    if (LICENSE_KEY === 'DEMO') {
        console.log('[CodeVault] Running in DEMO mode');
        return Promise.resolve(true);
    }

    return new Promise((resolve, reject) => {
        const hwid = getHWID();
        const nonce = crypto.randomBytes(16).toString('hex');
        const timestamp = Math.floor(Date.now() / 1000);

        let urlObj;
        try {
            urlObj = new URL(API_URL);
        } catch (e) {
            console.error('[CodeVault] Invalid API URL');
            process.exit(1);
        }

        const postData = JSON.stringify({
            license_key: LICENSE_KEY,
            hwid: hwid,
            nonce: nonce,
            timestamp: timestamp,
            machine_name: os.hostname()
        });

        const options = {
            hostname: urlObj.hostname,
            port: urlObj.port || (urlObj.protocol === 'https:' ? 443 : 80),
            path: urlObj.pathname,
            method: 'POST',
            headers: {
                'Content-Type': 'application/json',
                'Content-Length': Buffer.byteLength(postData)
            }
        };

        const lib = urlObj.protocol === 'http:' ? require('http') : require('https');

        const req = lib.request(options, (res) => {
            let body = '';
            res.on('data', (chunk) => body += chunk);
            res.on('end', () => {
                try {
                    if (res.statusCode !== 200) {
                        console.error(`[CodeVault] Validation failed (HTTP ${res.statusCode})`);
                        process.exit(1);
                    }
                    const response = JSON.parse(body);
                    if (response.status === 'valid') {
                        resolve(true);
                    } else {
                        console.error('[CodeVault] License invalid:', response.message || 'Unknown error');
                        process.exit(1);
                    }
                } catch (e) {
                    console.error('[CodeVault] Failed to parse validation response');
                    process.exit(1);
                }
            });
        });

        req.on('error', (e) => {
            console.error('[CodeVault] Connection error:', e.message);
            process.exit(1);
        });

        req.write(postData);
        req.end();
    });
}

module.exports = validateLicense;
"#;

/// The bundled-runtime validation wrapper with its credential
/// literals baked in.
pub open spec fn spec_js_license_fragment(key: Seq<char>, api_url: Seq<char>) -> Seq<char> {
    JS_LICENSE_PART_A@ + key + JS_LICENSE_PART_B@ + api_url + JS_LICENSE_PART_C@
}

/// Generate the bundled-runtime validation wrapper.
pub fn js_license_fragment(license_key: &str, api_url: &str) -> (r: String)
    ensures
        r@ == spec_js_license_fragment(license_key@, api_url@),
{
    let mut out = String::from_str(JS_LICENSE_PART_A);
    out.append(license_key);
    out.append(JS_LICENSE_PART_B);
    out.append(api_url);
    out.append(JS_LICENSE_PART_C);
    out
}

pub const BOOTSTRAP_PART_A: &'static str = r#"
const validateLicense = require('./_cv_license_wrapper');
validateLicense().then(() => {
    console.log('[CodeVault] License verified. Starting application...');
    require('"#;

pub const BOOTSTRAP_PART_B: &'static str = r#"');
}).catch(err => {
    console.error('[CodeVault] Startup error:', err);
    process.exit(1);
});
"#;

/// The module path under which the bootstrap loads the real entry
/// file: a relative path with forward separators.
pub fn entry_require_path(entry_file: &str) -> (r: String)
    ensures
        r@ == "./"@ + replace_all_spec(entry_file@, "\\"@, "/"@),
{
    let normalized = replace_all(entry_file, "\\", "/");
    let mut out = String::from_str("./");
    out.append(normalized.as_str());
    out
}

/// The bootstrap entry file: validate, then load the application.
pub open spec fn spec_bootstrap_fragment(require_path: Seq<char>) -> Seq<char> {
    BOOTSTRAP_PART_A@ + require_path + BOOTSTRAP_PART_B@
}

/// Generate the bootstrap entry file.
pub fn bootstrap_fragment(require_path: &str) -> (r: String)
    ensures
        r@ == spec_bootstrap_fragment(require_path@),
{
    let mut out = String::from_str(BOOTSTRAP_PART_A);
    out.append(require_path);
    out.append(BOOTSTRAP_PART_B);
    out
}

/// A short identifier from a hyphenated one: the hyphens dropped,
/// then at most the first eight characters.
pub open spec fn spec_short_id(s: Seq<char>) -> Seq<char> {
    let flat = replace_all_spec(s, "-"@, ""@);
    if flat.len() <= 8 {
        flat
    } else {
        flat.take(8)
    }
}

/// Shorten a hyphenated identifier.
pub fn short_id(s: &str) -> (r: String)
    ensures
        r@ == spec_short_id(s@),
{
    let flat = replace_all(s, "-", "");
    let n = flat.as_str().unicode_len();
    if n <= 8 {
        flat
    } else {
        flat.as_str().substring_char(0, 8).to_owned()
    }
}

/// The bootstrap's file name from a short identifier.
pub fn bootstrap_file_name(id: &str) -> (r: String)
    ensures
        r@ == "_cv_bootstrap_"@ + id@ + ".js"@,
{
    let mut out = String::from_str("_cv_bootstrap_");
    out.append(id);
    out.append(".js");
    out
}

// ---------------------------------------------------------------
// Launcher script
// ---------------------------------------------------------------
pub const LAUNCHER_FULL_A: &'static str = r#"@echo off
setlocal enabledelayedexpansion
title "#;

pub const LAUNCHER_FULL_B: &'static str = r#" - Application Launcher
color 0B

echo.
echo =====================================================
echo     "#;

pub const LAUNCHER_FULL_C: &'static str = r#" - Full-Stack Application
echo =====================================================
echo.

:: Check if required ports are available
netstat -an | find "8000" >nul 2>&1
if %errorlevel%==0 (
    echo [WARNING] Port 8000 may be in use. Backend might fail to start.
)

netstat -an | find "3000" >nul 2>&1
if %errorlevel%==0 (
    echo [WARNING] Port 3000 may be in use. Frontend might fail to start.
)

:: Store current directory
set "SCRIPT_DIR=%~dp0"

:: Start backend server in background
echo [1/4] Starting backend server...
start /B "Backend" "%SCRIPT_DIR%"#;

pub const LAUNCHER_FULL_D: &'static str = r#""

:: Wait for backend to initialize
echo [2/4] Waiting for backend to initialize...
timeout /t 4 /nobreak > nul

:: Check if backend is running
tasklist /FI "IMAGENAME eq "#;

pub const LAUNCHER_FULL_E: &'static str = r#"" 2>nul | find /I ""#;

pub const LAUNCHER_FULL_F: &'static str = r#"" >nul
if errorlevel 1 (
    echo [ERROR] Backend failed to start!
    echo         Check the console output for errors.
    pause
    exit /b 1
)

echo       [OK] Backend server started on http://localhost:8000

:: Start frontend server
echo [3/4] Starting frontend server...
cd /d ""#;

pub const LAUNCHER_FULL_G: &'static str = r#""
start /B "Frontend" npx serve -s . -l 3000 -n

:: Wait for frontend to initialize
timeout /t 3 /nobreak > nul

:: Open browser
echo [4/4] Opening browser...
start "" "http://localhost:3000"

echo.
echo =====================================================
echo   "#;

pub const LAUNCHER_FULL_H: &'static str = r#" is now running!
echo =====================================================
echo.
echo   Backend:  http://localhost:8000
echo   Frontend: http://localhost:3000
echo.
echo   Press any key to STOP the application...
echo =====================================================
echo.

pause > nul

echo.
echo Stopping application...

:: Kill processes gracefully
taskkill /IM ""#;

pub const LAUNCHER_FULL_I: &'static str = r#"" /F 2>nul
taskkill /IM node.exe /F 2>nul

echo.
echo Application stopped. Goodbye!
timeout /t 2 /nobreak > nul
"#;

pub const LAUNCHER_SIMPLE_A: &'static str = r#"@echo off
setlocal
title "#;

pub const LAUNCHER_SIMPLE_B: &'static str = r#"
color 0B

echo.
echo =====================================================
echo     "#;

pub const LAUNCHER_SIMPLE_C: &'static str = r#" - Starting Application
echo =====================================================
echo.

:: Store current directory
set "SCRIPT_DIR=%~dp0"

echo Starting "#;

pub const LAUNCHER_SIMPLE_D: &'static str = r#"...
"%SCRIPT_DIR%"#;

pub const LAUNCHER_SIMPLE_E: &'static str = r#""

:: If we get here, the app has exited
echo.
echo Application has stopped.
pause
"#;

/// The launcher for an application with a separately served
/// frontend: start the backend, serve the frontend, open a browser,
/// wait for a keypress, stop both.
pub open spec fn spec_launcher_full(
    output_name: Seq<char>,
    backend_exe: Seq<char>,
    frontend_dir: Seq<char>,
) -> Seq<char> {
    LAUNCHER_FULL_A@ + output_name + LAUNCHER_FULL_B@ + output_name + LAUNCHER_FULL_C@
        + backend_exe + LAUNCHER_FULL_D@ + backend_exe + LAUNCHER_FULL_E@ + backend_exe
        + LAUNCHER_FULL_F@ + frontend_dir + LAUNCHER_FULL_G@ + output_name + LAUNCHER_FULL_H@
        + backend_exe + LAUNCHER_FULL_I@
}

/// The launcher for a backend-only application.
pub open spec fn spec_launcher_simple(output_name: Seq<char>, backend_exe: Seq<char>) -> Seq<
    char,
> {
    LAUNCHER_SIMPLE_A@ + output_name + LAUNCHER_SIMPLE_B@ + output_name + LAUNCHER_SIMPLE_C@
        + output_name + LAUNCHER_SIMPLE_D@ + backend_exe + LAUNCHER_SIMPLE_E@
}

/// Generate the launcher script text: the full-stack variant when a
/// frontend directory is given, the plain variant otherwise.
pub fn launcher_script(output_name: &str, backend_exe: &str, frontend_dir: Option<&str>) -> (r:
    String)
    ensures
        frontend_dir matches Some(f) ==> r@ == spec_launcher_full(
            output_name@,
            backend_exe@,
            f@,
        ),
        frontend_dir is None ==> r@ == spec_launcher_simple(output_name@, backend_exe@),
{
    match frontend_dir {
        Some(frontend) => {
            let mut out = String::from_str(LAUNCHER_FULL_A);
            out.append(output_name);
            out.append(LAUNCHER_FULL_B);
            out.append(output_name);
            out.append(LAUNCHER_FULL_C);
            out.append(backend_exe);
            out.append(LAUNCHER_FULL_D);
            out.append(backend_exe);
            out.append(LAUNCHER_FULL_E);
            out.append(backend_exe);
            out.append(LAUNCHER_FULL_F);
            out.append(frontend);
            out.append(LAUNCHER_FULL_G);
            out.append(output_name);
            out.append(LAUNCHER_FULL_H);
            out.append(backend_exe);
            out.append(LAUNCHER_FULL_I);
            out
        },
        None => {
            let mut out = String::from_str(LAUNCHER_SIMPLE_A);
            out.append(output_name);
            out.append(LAUNCHER_SIMPLE_B);
            out.append(output_name);
            out.append(LAUNCHER_SIMPLE_C);
            out.append(output_name);
            out.append(LAUNCHER_SIMPLE_D);
            out.append(backend_exe);
            out.append(LAUNCHER_SIMPLE_E);
            out
        },
    }
}

/// The launcher's file name beside the produced executable.
pub fn launcher_file_name(output_name: &str) -> (r: String)
    ensures
        r@ == output_name@ + "_launcher.bat"@,
{
    let mut out = output_name.to_owned();
    out.append("_launcher.bat");
    out
}

// ---------------------------------------------------------------
// Icon conversion helper
// ---------------------------------------------------------------
pub const ICO_SCRIPT_A: &'static str = r#"
from PIL import Image
import sys

try:
    img = Image.open(r'"#;

pub const ICO_SCRIPT_B: &'static str = r#"')
    if img.mode != 'RGBA':
        img = img.convert('RGBA')
    img.save(r'"#;

pub const ICO_SCRIPT_C: &'static str = r#"', format='ICO', sizes=[(256,256), (128,128), (64,64), (48,48), (32,32), (16,16)])
    print('OK')
except Exception as e:
    print(f'ERROR: {e}', file=sys.stderr)
    sys.exit(1)
"#;

/// The helper script that converts an image into the icon format.
pub open spec fn spec_ico_script(png_path: Seq<char>, ico_path: Seq<char>) -> Seq<char> {
    ICO_SCRIPT_A@ + png_path + ICO_SCRIPT_B@ + ico_path + ICO_SCRIPT_C@
}

/// Generate the icon-conversion helper script.
pub fn ico_conversion_script(png_path: &str, ico_path: &str) -> (r: String)
    ensures
        r@ == spec_ico_script(png_path@, ico_path@),
{
    let mut out = String::from_str(ICO_SCRIPT_A);
    out.append(png_path);
    out.append(ICO_SCRIPT_B);
    out.append(ico_path);
    out.append(ICO_SCRIPT_C);
    out
}

} // verus!
