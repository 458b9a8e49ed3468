//! The auxiliary service's lifecycle decisions: where its port file
//! and logs live, how its advertised port is read, when it counts
//! as running, the bounded readiness probe, and the stop sequence.
use vstd::prelude::*;

use crate::digits::dec_digits_spec;
use crate::digits::parse_u16;
use crate::digits::parse_u16_spec;
use crate::digits::u64_to_string;
use crate::text::contains_sub;
use crate::text::contains_str;
use crate::text::trim_spec;
use crate::text::trim_str;

verus! {

/// The service's fixed fallback port and where it writes its logs.
pub struct BackendConfig {
    pub port: u16,
    pub log_dir: String,
}

impl BackendConfig {
    /// The configuration under a data directory; without one, the
    /// working directory stands in.
    pub fn resolve(data_dir: Option<String>) -> (r: BackendConfig)
        ensures
            r.port == 8765,
            data_dir matches Some(d) ==> r.log_dir@ == d@ + "/license-wrapper/logs"@,
            data_dir is None ==> r.log_dir@ == "."@ + "/license-wrapper/logs"@,
    {
        let mut base = match data_dir {
            Some(d) => d,
            None => String::from_str("."),
        };
        base.append("/license-wrapper/logs");
        BackendConfig { port: 8765, log_dir: base }
    }
}

/// The path of the file where the service advertises its port.
pub fn port_file_path(data_dir: Option<String>) -> (r: String)
    ensures
        data_dir matches Some(d) ==> r@ == d@ + "/license-wrapper/logs/backend.port"@,
        data_dir is None ==> r@ == "."@ + "/license-wrapper/logs/backend.port"@,
{
    let mut base = match data_dir {
        Some(d) => d,
        None => String::from_str("."),
    };
    base.append("/license-wrapper/logs/backend.port");
    base
}

/// The advertised port read from the port file's text: the trimmed
/// content as a decimal port number, or nothing.
pub fn parse_port(content: &str) -> (r: Option<u16>)
    ensures
        r == parse_u16_spec(trim_spec(content@)),
{
    parse_u16(trim_str(content))
}

/// The service address for a known advertised port, or the fixed
/// fallback port.
pub fn get_backend_url(port: Option<u16>) -> (r: String)
    ensures
        port matches Some(p) ==> r@ == "http://127.0.0.1:"@ + dec_digits_spec(p as int),
        port is None ==> r@ == "http://127.0.0.1:"@ + dec_digits_spec(8765),
{
    let p: u16 = match port {
        Some(p) => p,
        None => 8765,
    };
    let digits = u64_to_string(p as u64);
    let mut out = String::from_str("http://127.0.0.1:");
    out.append(digits.as_str());
    out
}

/// What one look at the held child process found.
pub enum ChildProbe {
    StillRunning,
    Exited,
    Unknown,
}

/// Whether the service counts as running: a held handle answers the
/// question by itself; without one, an advertised port that answers
/// counts.
pub fn is_backend_running(handle: Option<ChildProbe>, port: Option<u16>, port_responds: bool) -> (r:
    bool)
    ensures
        handle matches Some(p) ==> r == (p is StillRunning),
        handle is None ==> r == (port is Some && port_responds),
{
    match handle {
        Some(ChildProbe::StillRunning) => true,
        Some(_) => false,
        None => port.is_some() && port_responds,
    }
}

/// The bounded readiness probe of the service start: a fixed number
/// of looks, failing closed when they run out.
pub struct SidecarProbe {
    pub attempts: u32,
    pub max_attempts: u32,
}

/// What one probe step decides.
pub enum ProbeStep {
    Ready(u16),
    Retry,
    GiveUp,
}

impl SidecarProbe {
    pub open spec fn wf(&self) -> bool {
        self.attempts <= self.max_attempts
    }

    /// A fresh probe with its bound.
    pub fn new(max_attempts: u32) -> (r: SidecarProbe)
        ensures
            r.wf(),
            r.attempts == 0,
            r.max_attempts == max_attempts,
    {
        SidecarProbe { attempts: 0, max_attempts }
    }

    /// One look: an advertised port that answers is readiness; a
    /// miss uses up one attempt, and the last miss gives up.
    pub fn step(&mut self, port: Option<u16>, healthy: bool) -> (r: ProbeStep)
        requires
            old(self).wf(),
            old(self).attempts < old(self).max_attempts,
        ensures
            final(self).wf(),
            final(self).max_attempts == old(self).max_attempts,
            port matches Some(p) ==> (healthy ==> r == ProbeStep::Ready(p) && final(self).attempts
                == old(self).attempts),
            (port is None || !healthy) ==> final(self).attempts == old(self).attempts + 1 && (
            if old(self).attempts + 1 == old(self).max_attempts {
                r == ProbeStep::GiveUp
            } else {
                r == ProbeStep::Retry
            }),
    {
        match port {
            Some(p) if healthy => ProbeStep::Ready(p),
            _ => {
                self.attempts = self.attempts + 1;
                if self.attempts == self.max_attempts {
                    ProbeStep::GiveUp
                } else {
                    ProbeStep::Retry
                }
            },
        }
    }
}

/// The steps of the stop sequence, in order.
pub enum SidecarStopAction {
    TerminateChild,
    AwaitExit,
    ClearHandle,
    RemovePortFile,
}

/// The stop sequence: with a held handle, terminate, await, clear,
/// and always remove the readiness marker afterwards.
pub fn sidecar_stop_plan(has_handle: bool) -> (r: Vec<SidecarStopAction>)
    ensures
        has_handle ==> r@ =~= seq![
            SidecarStopAction::TerminateChild,
            SidecarStopAction::AwaitExit,
            SidecarStopAction::ClearHandle,
            SidecarStopAction::RemovePortFile,
        ],
        !has_handle ==> r@ =~= seq![SidecarStopAction::RemovePortFile],
{
    let mut out: Vec<SidecarStopAction> = Vec::new();
    if has_handle {
        out.push(SidecarStopAction::TerminateChild);
        out.push(SidecarStopAction::AwaitExit);
        out.push(SidecarStopAction::ClearHandle);
    }
    out.push(SidecarStopAction::RemovePortFile);
    out
}

/// What the status query reports.
pub struct BackendStatus {
    pub running: bool,
    pub port: Option<u16>,
    pub url: String,
}

/// Assemble the status report: the running flag, the advertised
/// port, and the address derived from it.
pub fn backend_status(running: bool, port: Option<u16>) -> (r: BackendStatus)
    ensures
        r.running == running,
        r.port == port,
        port matches Some(p) ==> r.url@ == "http://127.0.0.1:"@ + dec_digits_spec(p as int),
        port is None ==> r.url@ == "http://127.0.0.1:"@ + dec_digits_spec(8765),
{
    BackendStatus { running, port, url: get_backend_url(port) }
}

/// The interpreter names tried when looking for a runtime, in
/// order.
pub fn python_candidates() -> (r: Vec<String>)
    ensures
        r.deep_view() =~= seq!["python"@, "python3"@, "py"@],
{
    let mut out: Vec<String> = Vec::new();
    out.push(String::from_str("python"));
    out.push(String::from_str("python3"));
    out.push(String::from_str("py"));
    proof {
        assert(out.deep_view() =~= seq!["python"@, "python3"@, "py"@]);
    }
    out
}

/// Whether a version probe's output names an acceptable runtime.
pub fn accepts_python_probe(output: &str) -> (r: bool)
    ensures
        r == contains_sub(output@, "Python 3."@),
{
    contains_str(output, "Python 3.")
}

} // verus!
