//! How what a finished (or never started) process reported becomes the
//! result of each operation.

use vstd::prelude::*;

use crate::text::{decode_lossy, first_line, first_line_trimmed, lossy_text, trimmed};

verus! {

/// What became of one process run.
pub enum ProcessReport {
    /// The process could not be started; the description of why.
    LaunchFailed(String),
    /// It started, but writing its input or collecting its output failed;
    /// the description of why.
    StreamFailed(String),
    /// It ran to its end: whether its exit status means success, and the
    /// bytes it wrote to its output and error streams.
    Exited { success: bool, stdout: Vec<u8>, stderr: Vec<u8> },
}

/// A text result as plain characters.
pub open spec fn text_result(r: Result<String, String>) -> Result<Seq<char>, Seq<char>> {
    match r {
        Ok(t) => Ok(t@),
        Err(e) => Err(e@),
    }
}

/// A yes/no result with its diagnostic as plain characters.
pub open spec fn flag_result(r: Result<bool, String>) -> Result<bool, Seq<char>> {
    match r {
        Ok(b) => Ok(b),
        Err(e) => Err(e@),
    }
}

/// A run: the decoded output on a successful exit, the decoded error
/// stream on any other exit, and the description of a failure to start or
/// to talk to the process.
pub open spec fn run_result(r: ProcessReport) -> Result<Seq<char>, Seq<char>> {
    match r {
        ProcessReport::LaunchFailed(m) => Err(m@),
        ProcessReport::StreamFailed(m) => Err(m@),
        ProcessReport::Exited { success, stdout, stderr } => {
            if success {
                Ok(lossy_text(stdout@))
            } else {
                Err(lossy_text(stderr@))
            }
        },
    }
}

/// The installation probe: installed when the process exits successfully
/// and printed something.
pub open spec fn installed_result(r: ProcessReport) -> Result<bool, Seq<char>> {
    match r {
        ProcessReport::LaunchFailed(m) => Err(m@),
        ProcessReport::StreamFailed(m) => Err(m@),
        ProcessReport::Exited { success, stdout, stderr } => {
            if success && stdout@.len() > 0 {
                Ok(true)
            } else {
                Err(lossy_text(stderr@))
            }
        },
    }
}

/// The readiness probe: the exit status alone decides, whatever was
/// printed.
pub open spec fn ready_result(r: ProcessReport) -> Result<bool, Seq<char>> {
    match r {
        ProcessReport::LaunchFailed(m) => Err(m@),
        ProcessReport::StreamFailed(m) => Err(m@),
        ProcessReport::Exited { success, .. } => Ok(success),
    }
}

/// The locate probe: the first line of the decoded output, trimmed, on a
/// successful exit.
pub open spec fn locate_result(r: ProcessReport) -> Result<Seq<char>, Seq<char>> {
    match r {
        ProcessReport::LaunchFailed(m) => Err(m@),
        ProcessReport::StreamFailed(m) => Err(m@),
        ProcessReport::Exited { success, stdout, stderr } => {
            if success {
                Ok(trimmed(first_line(lossy_text(stdout@))))
            } else {
                Err(lossy_text(stderr@))
            }
        },
    }
}

/// A process that exits successfully gives, for a run with or without
/// input, exactly its output decoded lossily.
pub proof fn successful_exit_gives_output(stdout: Vec<u8>, stderr: Vec<u8>)
    ensures
        run_result(ProcessReport::Exited { success: true, stdout, stderr }) == Ok::<
            Seq<char>,
            Seq<char>,
        >(lossy_text(stdout@)),
{
}

/// A process that exits with a failure status fails every operation that
/// reads output, with exactly its error stream decoded lossily, empty or
/// not.
pub proof fn failed_exit_gives_error_text(stdout: Vec<u8>, stderr: Vec<u8>)
    ensures
        run_result(ProcessReport::Exited { success: false, stdout, stderr }) == Err::<
            Seq<char>,
            Seq<char>,
        >(lossy_text(stderr@)),
        installed_result(ProcessReport::Exited { success: false, stdout, stderr }) == Err::<
            bool,
            Seq<char>,
        >(lossy_text(stderr@)),
        locate_result(ProcessReport::Exited { success: false, stdout, stderr }) == Err::<
            Seq<char>,
            Seq<char>,
        >(lossy_text(stderr@)),
{
}

/// A process that cannot be started makes every run operation fail, with
/// the description of the launch error.
pub proof fn launch_failure_fails_every_operation(m: String)
    ensures
        run_result(ProcessReport::LaunchFailed(m)) == Err::<Seq<char>, Seq<char>>(m@),
        installed_result(ProcessReport::LaunchFailed(m)) == Err::<bool, Seq<char>>(m@),
        ready_result(ProcessReport::LaunchFailed(m)) == Err::<bool, Seq<char>>(m@),
        locate_result(ProcessReport::LaunchFailed(m)) == Err::<Seq<char>, Seq<char>>(m@),
{
}

/// The result of a run with or without input.
pub fn run_outcome(report: ProcessReport) -> (r: Result<String, String>)
    ensures
        text_result(r) == run_result(report),
        match report {
            ProcessReport::Exited { success, stderr, .. } => !success && stderr@.len() == 0
                ==> text_result(r) == Err::<Seq<char>, Seq<char>>(Seq::empty()),
            _ => true,
        },
{
    match report {
        ProcessReport::LaunchFailed(m) => Err(m),
        ProcessReport::StreamFailed(m) => Err(m),
        ProcessReport::Exited { success, stdout, stderr } => {
            if success {
                Ok(decode_lossy(&stdout))
            } else {
                let e = decode_lossy(&stderr);
                proof {
                    if stderr@.len() == 0 {
                        assert(e@ =~= Seq::<char>::empty());
                    }
                }
                Err(e)
            }
        },
    }
}

/// The result of the installation probe.
pub fn installed_outcome(report: ProcessReport) -> (r: Result<bool, String>)
    ensures
        flag_result(r) == installed_result(report),
{
    match report {
        ProcessReport::LaunchFailed(m) => Err(m),
        ProcessReport::StreamFailed(m) => Err(m),
        ProcessReport::Exited { success, stdout, stderr } => {
            if success && stdout.len() > 0 {
                Ok(true)
            } else {
                Err(decode_lossy(&stderr))
            }
        },
    }
}

/// The result of the readiness probe.
pub fn ready_outcome(report: ProcessReport) -> (r: Result<bool, String>)
    ensures
        flag_result(r) == ready_result(report),
{
    match report {
        ProcessReport::LaunchFailed(m) => Err(m),
        ProcessReport::StreamFailed(m) => Err(m),
        ProcessReport::Exited { success, .. } => Ok(success),
    }
}

/// The result of the locate probe.
pub fn locate_outcome(report: ProcessReport) -> (r: Result<String, String>)
    ensures
        text_result(r) == locate_result(report),
{
    match report {
        ProcessReport::LaunchFailed(m) => Err(m),
        ProcessReport::StreamFailed(m) => Err(m),
        ProcessReport::Exited { success, stdout, stderr } => {
            if success {
                let out = decode_lossy(&stdout);
                Ok(first_line_trimmed(out.as_str()))
            } else {
                Err(decode_lossy(&stderr))
            }
        },
    }
}

} // verus!
