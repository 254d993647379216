use orchestrator::capture::capture_report_of;
use orchestrator::capture::parse_capture_json;
use orchestrator::error::OrchError;
use orchestrator::invoke::adb_devices_invocation;
use orchestrator::invoke::adb_invocation;
use orchestrator::invoke::open_location_invocation;
use orchestrator::invoke::outcome_of_launch_failure;
use orchestrator::invoke::outcome_of_run;
use orchestrator::invoke::terminal_invocation;
use orchestrator::invoke::Platform;
use orchestrator::invoke::ToolInvocation;
use orchestrator::invoke::ToolOutcome;
use orchestrator::pipeline::after_convert;
use orchestrator::pipeline::analysis_invocation;
use orchestrator::pipeline::converter_invocation;
use orchestrator::pipeline::format_tag;
use orchestrator::pipeline::CaptureFormat;
use orchestrator::pipeline::ConversionJob;
use orchestrator::pipeline::PipelineStep;

fn job(format: CaptureFormat) -> ConversionJob {
    ConversionJob {
        input_path: "logs/session.raw".to_string(),
        output_path: "out/session.pcap".to_string(),
        format,
    }
}

/// A stand-in invoker that records every invocation it is asked to run and
/// answers each from a scripted list of outcomes.
struct CountingInvoker {
    ran: Vec<String>,
    script: Vec<ToolOutcome>,
}

impl CountingInvoker {
    fn run(&mut self, inv: &ToolInvocation) -> ToolOutcome {
        self.ran.push(inv.program.clone());
        self.script.remove(0)
    }
}

fn drive_pipeline(invoker: &mut CountingInvoker, job: &ConversionJob) -> ToolOutcome {
    let convert = converter_invocation(job);
    let converted = invoker.run(&convert);
    match after_convert(job, converted) {
        PipelineStep::Finished(outcome) => outcome,
        PipelineStep::RunAnalysis(analysis) => invoker.run(&analysis),
    }
}

#[test]
fn failed_conversion_never_reaches_the_analyzer() {
    let mut invoker = CountingInvoker {
        ran: Vec::new(),
        script: vec![ToolOutcome::Failure {
            stderr: "bad capture".to_string(),
            exit_code: Some(1),
        }],
    };
    let outcome = drive_pipeline(&mut invoker, &job(CaptureFormat::Qmdl));
    // Only the converter ran; the analyzer was never invoked.
    assert_eq!(invoker.ran, vec!["python3"]);
    match outcome {
        ToolOutcome::Failure { stderr, exit_code } => {
            assert_eq!(stderr, "bad capture");
            assert_eq!(exit_code, Some(1));
        }
        ToolOutcome::Success { .. } => panic!("step-one failure must be the job's failure"),
    }
}

#[test]
fn successful_conversion_runs_the_analyzer() {
    let mut invoker = CountingInvoker {
        ran: Vec::new(),
        script: vec![
            ToolOutcome::Success { stdout: String::new() },
            ToolOutcome::Success { stdout: "[]".to_string() },
        ],
    };
    let outcome = drive_pipeline(&mut invoker, &job(CaptureFormat::Sdm));
    assert_eq!(invoker.ran, vec!["python3", "tshark"]);
    assert!(matches!(outcome, ToolOutcome::Success { .. }));
}

#[test]
fn converter_arguments_select_the_format_tag() {
    let qmdl = converter_invocation(&job(CaptureFormat::Qmdl));
    assert_eq!(qmdl.program, "python3");
    assert_eq!(
        qmdl.args,
        vec!["scat/scat.py", "-t", "qc", "-d", "logs/session.raw", "-F", "out/session.pcap"]
    );
    let sdm = converter_invocation(&job(CaptureFormat::Sdm));
    assert_eq!(sdm.args[2], "sec");
    assert_eq!(format_tag(CaptureFormat::Qmdl), "qc");
    assert_eq!(format_tag(CaptureFormat::Sdm), "sec");
}

#[test]
fn analysis_arguments_ask_for_json() {
    let inv = analysis_invocation("out/session.pcap");
    assert_eq!(inv.program, "tshark");
    assert_eq!(inv.args, vec!["-r", "out/session.pcap", "-T", "json"]);
    assert_eq!(inv.current_dir, None);
}

#[test]
fn exit_status_classification() {
    let ok = outcome_of_run(0, "all good".to_string(), "noise".to_string());
    match ok {
        ToolOutcome::Success { stdout } => assert_eq!(stdout, "all good"),
        _ => panic!("exit code zero is success"),
    }
    let bad = outcome_of_run(3, "ignored".to_string(), "broke".to_string());
    match bad {
        ToolOutcome::Failure { stderr, exit_code } => {
            assert_eq!(stderr, "broke");
            assert_eq!(exit_code, Some(3));
        }
        _ => panic!("nonzero exit code is failure"),
    }
    // A tool that never launched carries no exit code at all.
    let gone = outcome_of_launch_failure("no such file".to_string());
    match gone {
        ToolOutcome::Failure { stderr, exit_code } => {
            assert_eq!(stderr, "no such file");
            assert_eq!(exit_code, None);
        }
        _ => panic!("launch failure is failure"),
    }
}

#[test]
fn outcome_into_result_picks_the_right_stream() {
    let ok = ToolOutcome::Success { stdout: "out".to_string() };
    assert_eq!(ok.into_result(), Ok("out".to_string()));
    let bad = ToolOutcome::Failure { stderr: "err".to_string(), exit_code: Some(1) };
    assert_eq!(bad.into_result(), Err("err".to_string()));
}

#[test]
fn device_bridge_invocations() {
    let listing = adb_devices_invocation();
    assert_eq!(listing.program, "adb");
    assert_eq!(listing.args, vec!["devices"]);
    let custom = adb_invocation(vec!["shell".to_string(), "getprop".to_string()]);
    assert_eq!(custom.program, "adb");
    assert_eq!(custom.args, vec!["shell", "getprop"]);
}

#[test]
fn platform_command_tables() {
    let win = open_location_invocation(Platform::Windows, "C:/data/x.pcap".to_string());
    assert_eq!(win.program, "explorer");
    assert_eq!(win.args, vec!["/select,", "C:/data/x.pcap"]);
    let mac = open_location_invocation(Platform::MacOs, "/data/x.pcap".to_string());
    assert_eq!(mac.program, "open");
    assert_eq!(mac.args, vec!["-R", "/data/x.pcap"]);
    let lin = open_location_invocation(Platform::Linux, "/data".to_string());
    assert_eq!(lin.program, "xdg-open");
    assert_eq!(lin.args, vec!["/data"]);

    let term = terminal_invocation(Platform::Linux, "htop".to_string());
    assert_eq!(term.program, "x-terminal-emulator");
    assert_eq!(term.args, vec!["-e", "htop"]);
    let mac_term = terminal_invocation(Platform::MacOs, "htop".to_string());
    assert_eq!(mac_term.args, vec!["-a", "Terminal", "htop"]);
    let win_term = terminal_invocation(Platform::Windows, "dir".to_string());
    assert_eq!(win_term.program, "cmd");
    assert_eq!(win_term.args, vec!["/c", "start", "cmd", "/k", "dir"]);
}

#[test]
fn capture_json_is_checked_for_syntax_only() {
    let good = "{\"packets\": [1, 2, 3]}";
    assert_eq!(parse_capture_json(good).unwrap(), good);
    assert_eq!(parse_capture_json("[]").unwrap(), "[]");
    assert!(matches!(
        parse_capture_json("not json {"),
        Err(OrchError::MalformedOutput)
    ));
    assert!(matches!(parse_capture_json(""), Err(OrchError::MalformedOutput)));
}

#[test]
fn capture_report_follows_the_error_taxonomy() {
    let ok = capture_report_of(ToolOutcome::Success { stdout: "{\"a\": 1}".to_string() });
    assert_eq!(ok.unwrap(), "{\"a\": 1}");

    let garbled = capture_report_of(ToolOutcome::Success { stdout: "<xml/>".to_string() });
    assert!(matches!(garbled, Err(OrchError::MalformedOutput)));

    let ran_and_failed = capture_report_of(ToolOutcome::Failure {
        stderr: "bad file".to_string(),
        exit_code: Some(2),
    });
    match ran_and_failed {
        Err(OrchError::ToolFailed { stderr, exit_code }) => {
            assert_eq!(stderr, "bad file");
            assert_eq!(exit_code, 2);
        }
        _ => panic!("a run that failed maps to ToolFailed"),
    }

    let never_ran = capture_report_of(ToolOutcome::Failure {
        stderr: "tshark: command not found".to_string(),
        exit_code: None,
    });
    match never_ran {
        Err(OrchError::ToolNotFound { message }) => {
            assert_eq!(message, "tshark: command not found");
        }
        _ => panic!("a tool that never launched maps to ToolNotFound"),
    }
}

#[test]
fn error_descriptions_name_the_failure() {
    let spawn = OrchError::SpawnFailed { message: "eperm".to_string() };
    assert_eq!(spawn.describe(), "failed to start backend: eperm");
    assert_eq!(OrchError::MalformedOutput.describe(), "malformed tool output");
    assert_eq!(OrchError::BackendNotFound.describe(), "backend launcher not found");
    let failed = OrchError::ToolFailed { stderr: "boom".to_string(), exit_code: 9 };
    assert_eq!(failed.describe(), "tool failed: boom");
    let missing = OrchError::ToolNotFound { message: "adb".to_string() };
    assert_eq!(missing.describe(), "tool not found: adb");
}
