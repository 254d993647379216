//! The conversion pipeline: raw capture → interchange format → analysis.
//!
//! One [`ConversionJob`] names an input capture, the intermediate output
//! path, and which raw format the input is in. Step one runs the format
//! converter with format-specific flags; step two, attempted only if step
//! one succeeded, runs the packet analyzer against the intermediate file.
//! A step-one failure short-circuits: the job's result is exactly that
//! failure, and no analysis invocation is ever produced. The caller runs
//! the invocations; [`after_convert`] is the decision point between them.

use vstd::prelude::*;
use crate::invoke::ToolInvocation;
use crate::invoke::ToolOutcome;

verus! {

/// The two raw-capture formats, both converging on the same interchange
/// format.
#[derive(Debug, Clone, Copy, PartialEq, Eq, Structural)]
pub enum CaptureFormat {
    /// A Qualcomm-style diagnostic log.
    Qmdl,
    /// A Samsung-style diagnostic log.
    Sdm,
}

/// One pipeline run: input capture, intermediate output path, format tag.
/// Transient — it exists only for the duration of one run.
#[derive(Debug, Clone)]
pub struct ConversionJob {
    pub input_path: String,
    pub output_path: String,
    pub format: CaptureFormat,
}

/// What the pipeline asks of the caller after step one.
#[derive(Debug, Clone)]
pub enum PipelineStep {
    /// Step one succeeded: run this analysis invocation next.
    RunAnalysis(ToolInvocation),
    /// The pipeline is over; this is the job's outcome.
    Finished(ToolOutcome),
}

/// What the analysis invocation for a given intermediate file must look
/// like: `tshark -r <capture> -T json`, no working directory, no timeout.
pub open spec fn spec_is_analysis_invocation(inv: ToolInvocation, capture_path: Seq<char>) -> bool {
    &&& inv.program@ == "tshark"@
    &&& inv.args@.len() == 4
    &&& inv.args@[0]@ == "-r"@
    &&& inv.args@[1]@ == capture_path
    &&& inv.args@[2]@ == "-T"@
    &&& inv.args@[3]@ == "json"@
    &&& inv.current_dir is None
    &&& inv.timeout_ms is None
}

/// The converter's format tag: the flag value selecting how to decode the
/// raw capture.
pub fn format_tag(format: CaptureFormat) -> (tag: String)
    ensures
        format == CaptureFormat::Qmdl ==> tag@ == "qc"@,
        format == CaptureFormat::Sdm ==> tag@ == "sec"@,
{
    match format {
        CaptureFormat::Qmdl => String::from_str("qc"),
        CaptureFormat::Sdm => String::from_str("sec"),
    }
}

/// Step one's invocation: the converter script with format-specific flags,
/// `<tool> -t <format-tag> -d <input> -F <output>`.
pub fn converter_invocation(job: &ConversionJob) -> (inv: ToolInvocation)
    ensures
        inv.program@ == "python3"@,
        inv.args@.len() == 7,
        inv.args@[0]@ == "scat/scat.py"@,
        inv.args@[1]@ == "-t"@,
        job.format == CaptureFormat::Qmdl ==> inv.args@[2]@ == "qc"@,
        job.format == CaptureFormat::Sdm ==> inv.args@[2]@ == "sec"@,
        inv.args@[3]@ == "-d"@,
        inv.args@[4]@ == job.input_path@,
        inv.args@[5]@ == "-F"@,
        inv.args@[6]@ == job.output_path@,
        inv.current_dir is None,
        inv.timeout_ms is None,
{
    let mut args: Vec<String> = Vec::new();
    args.push(String::from_str("scat/scat.py"));
    args.push(String::from_str("-t"));
    args.push(format_tag(job.format));
    args.push(String::from_str("-d"));
    args.push(job.input_path.clone());
    args.push(String::from_str("-F"));
    args.push(job.output_path.clone());
    ToolInvocation {
        program: String::from_str("python3"),
        args,
        current_dir: None,
        timeout_ms: None,
    }
}

/// Step two's invocation: the analyzer over the intermediate file,
/// `<tool> -r <input> -T json`.
pub fn analysis_invocation(capture_path: &str) -> (inv: ToolInvocation)
    ensures
        spec_is_analysis_invocation(inv, capture_path@),
{
    let mut args: Vec<String> = Vec::new();
    args.push(String::from_str("-r"));
    args.push(capture_path.to_owned());
    args.push(String::from_str("-T"));
    args.push(String::from_str("json"));
    ToolInvocation {
        program: String::from_str("tshark"),
        args,
        current_dir: None,
        timeout_ms: None,
    }
}

/// The decision between the two steps. A failed conversion finishes the
/// pipeline with exactly that failure — the analysis tool is never invoked
/// for it; a successful one hands back the analysis invocation for the
/// job's intermediate file.
pub fn after_convert(job: &ConversionJob, converted: ToolOutcome) -> (step: PipelineStep)
    ensures
        converted is Failure ==> step == PipelineStep::Finished(converted),
        converted is Success ==> (step matches PipelineStep::RunAnalysis(inv)
            && spec_is_analysis_invocation(inv, job.output_path@)),
{
    match converted {
        ToolOutcome::Failure { .. } => PipelineStep::Finished(converted),
        ToolOutcome::Success { .. } => PipelineStep::RunAnalysis(
            analysis_invocation(job.output_path.as_str()),
        ),
    }
}

} // verus!
