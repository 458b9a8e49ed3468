//! The bounded progress model: events delivered to a listener carry
//! a non-decreasing progress figure within zero and one hundred, and
//! one terminal result closes the log. Free-text compiler output is
//! classified into stage tags here as well.
use vstd::prelude::*;

use crate::text::contains_sub;
use crate::text::contains_str;

verus! {

/// One progress event for a listener.
pub struct CompilationProgress {
    pub job_id: String,
    pub progress: u32,
    pub message: String,
    pub stage: String,
}

/// The terminal event of a job.
pub struct CompilationResult {
    pub job_id: String,
    pub success: bool,
    pub output_path: Option<String>,
    pub error_message: Option<String>,
}

/// The event log of one job: every event it ever held, the current
/// progress figure, and the terminal result once one exists.
pub struct ProgressLog {
    pub job_id: String,
    pub events: Vec<CompilationProgress>,
    pub current: u32,
    pub result: Option<CompilationResult>,
}

impl ProgressLog {
    /// The log's invariant: progress figures are bounded, reached in
    /// non-decreasing order, never past the current figure, and every
    /// event belongs to this job.
    pub open spec fn wf(&self) -> bool {
        &&& self.current <= 100
        &&& forall|i: int, j: int|
            0 <= i <= j < self.events@.len() ==> #[trigger] self.events@[i].progress
                <= #[trigger] self.events@[j].progress
        &&& forall|i: int|
            0 <= i < self.events@.len() ==> #[trigger] self.events@[i].progress <= self.current
        &&& forall|i: int|
            0 <= i < self.events@.len() ==> #[trigger] self.events@[i].job_id@ == self.job_id@
        &&& (self.result matches Some(res) ==> res.job_id@ == self.job_id@)
    }

    /// An empty log at progress zero.
    pub fn new(job_id: String) -> (r: Self)
        ensures
            r.wf(),
            r.job_id@ == job_id@,
            r.events@.len() == 0,
            r.current == 0,
            r.result is None,
    {
        ProgressLog { job_id, events: Vec::new(), current: 0, result: None }
    }

    /// Record one progress event. A figure below the current one is
    /// lifted to it, so delivered progress never goes backwards.
    pub fn emit(&mut self, progress: u32, message: String, stage: String)
        requires
            old(self).wf(),
            old(self).result is None,
            progress <= 100,
        ensures
            final(self).wf(),
            final(self).result is None,
            final(self).job_id@ == old(self).job_id@,
            final(self).current == (if progress > old(self).current {
                progress as int
            } else {
                old(self).current as int
            }),
            final(self).events@.len() == old(self).events@.len() + 1,
            forall|i: int|
                0 <= i < old(self).events@.len() ==> final(self).events@[i] == old(
                    self,
                ).events@[i],
            final(self).events@.last().progress == final(self).current,
            final(self).events@.last().message@ == message@,
            final(self).events@.last().stage@ == stage@,
            final(self).events@.last().job_id@ == old(self).job_id@,
    {
        let figure = if progress > self.current {
            progress
        } else {
            self.current
        };
        self.current = figure;
        let event = CompilationProgress {
            job_id: self.job_id.clone(),
            progress: figure,
            message,
            stage,
        };
        self.events.push(event);
    }

    /// Close the log with its one terminal result.
    pub fn finish(&mut self, success: bool, output_path: Option<String>, error_message: Option<
        String,
    >)
        requires
            old(self).wf(),
            old(self).result is None,
        ensures
            final(self).wf(),
            final(self).job_id@ == old(self).job_id@,
            final(self).events@ == old(self).events@,
            final(self).current == old(self).current,
            final(self).result matches Some(res) && res.success == success && res.output_path
                == output_path && res.error_message == error_message && res.job_id@ == old(
                self,
            ).job_id@,
    {
        self.result = Some(
            CompilationResult {
                job_id: self.job_id.clone(),
                success,
                output_path,
                error_message,
            },
        );
    }
}

/// Delivered progress forms a non-decreasing sequence bounded in
/// zero to one hundred, and the log holds at most one result.
pub proof fn lemma_progress_monotone_bounded(log: &ProgressLog)
    requires
        log.wf(),
    ensures
        forall|i: int, j: int|
            0 <= i <= j < log.events@.len() ==> #[trigger] log.events@[i].progress
                <= #[trigger] log.events@[j].progress,
        forall|i: int| 0 <= i < log.events@.len() ==> #[trigger] log.events@[i].progress <= 100,
{
    assert forall|i: int| 0 <= i < log.events@.len() implies #[trigger] log.events@[i].progress
        <= 100 by {
        assert(log.events@[i].progress <= log.current);
    }
}

/// A streamed-output progress figure advanced by a step, capped at
/// the pre-completion ceiling.
pub open spec fn spec_advance_capped(p: int, step: int) -> int {
    if p + step > 90 {
        90
    } else {
        p + step
    }
}

pub fn advance_capped(p: u32, step: u32) -> (r: u32)
    requires
        p <= 90,
        step <= 90,
    ensures
        r == spec_advance_capped(p as int, step as int),
        p <= r <= 90,
{
    if p + step > 90 {
        90
    } else {
        p + step
    }
}

/// The stage tag for one line of the packaging tool's output.
pub open spec fn spec_classify_stage(line: Seq<char>) -> Seq<char> {
    if contains_sub(line, "Nuitka:INFO:"@) {
        "processing"@
    } else if contains_sub(line, "Nuitka:WARNING:"@) {
        "warning"@
    } else if contains_sub(line, "Nuitka:ERROR:"@) {
        "error"@
    } else {
        "compiling"@
    }
}

/// The progress figure after one line: informational lines advance
/// by two, unmatched lines by one so the figure never stalls, and
/// warnings or errors leave it alone; ninety is the ceiling.
pub open spec fn spec_classify_progress(line: Seq<char>, p: int) -> int {
    if contains_sub(line, "Nuitka:INFO:"@) {
        spec_advance_capped(p, 2)
    } else if contains_sub(line, "Nuitka:WARNING:"@) {
        p
    } else if contains_sub(line, "Nuitka:ERROR:"@) {
        p
    } else {
        spec_advance_capped(p, 1)
    }
}

/// Classify one output line of the packaging tool into a stage tag
/// and the advanced progress figure.
pub fn classify_compiler_line(line: &str, progress: u32) -> (r: (String, u32))
    requires
        progress <= 90,
    ensures
        r.0@ == spec_classify_stage(line@),
        r.1 == spec_classify_progress(line@, progress as int),
        progress <= r.1 <= 90,
{
    if contains_str(line, "Nuitka:INFO:") {
        (String::from_str("processing"), advance_capped(progress, 2))
    } else if contains_str(line, "Nuitka:WARNING:") {
        (String::from_str("warning"), progress)
    } else if contains_str(line, "Nuitka:ERROR:") {
        (String::from_str("error"), progress)
    } else {
        (String::from_str("compiling"), advance_capped(progress, 1))
    }
}

} // verus!
