//! The two result shapes handed back to the front-end, and how each is built
//! from what the operating system reported.
use vstd::prelude::*;

verus! {

/// What the decoding of raw process output into text gives for `bytes`.
pub uninterp spec fn lossy_text(bytes: Seq<u8>) -> Seq<char>;

/// Relies on `String::from_utf8_lossy`: the bytes decoded as UTF-8, with each
/// invalid sequence replaced by U+FFFD. Valid characters are kept and every
/// invalid sequence yields one replacement character, so the text is empty
/// exactly when the bytes are.
#[verifier::external_body]
fn decode_lossy(bytes: &[u8]) -> (r: String)
    ensures
        r@ == lossy_text(bytes@),
        (bytes@.len() == 0) == (r@.len() == 0),
{
    String::from_utf8_lossy(bytes).into_owned()
}

/// The error reported when `git` fails without writing to standard error.
pub open spec fn silent_failure_text() -> Seq<char> {
    "git exited with a failure status and wrote nothing to standard error"@
}

/// The error reported when a process could not be started and no reason was
/// given.
pub open spec fn unexplained_launch_failure_text() -> Seq<char> {
    "the process could not be started"@
}

/// `text`, or `fallback` in its place when `text` is empty.
fn or_fallback(text: String, fallback: &str) -> (r: String)
    ensures
        text@.len() > 0 ==> r == text,
        text@.len() == 0 ==> r@ == fallback@,
{
    if text.as_str().is_empty() {
        String::from_str(fallback)
    } else {
        text
    }
}

/// How a version-control process ended, as captured by the caller that ran it.
pub struct ProcessOutput {
    /// Whether the process exited with a successful status.
    pub success: bool,
    /// Everything the process wrote to standard output.
    pub stdout: Vec<u8>,
    /// Everything the process wrote to standard error.
    pub stderr: Vec<u8>,
}

/// The outcome of one version-control operation.
pub struct GitResult {
    pub success: bool,
    /// Captured standard output; empty when the process could not be started.
    pub output: String,
    /// Present exactly when `success` is false: the captured standard error, or
    /// the reason the process could not be started.
    pub error: Option<String>,
}

/// The outcome of handing a path to a detached launcher process.
pub struct ShellResult {
    pub success: bool,
    /// Present exactly when the launcher could not be started.
    pub error: Option<String>,
}

impl GitResult {
    /// An error is reported exactly on failure.
    pub open spec fn wf(&self) -> bool {
        self.success <==> self.error.is_none()
    }

    /// The result for a process that ran to completion and exited with the
    /// given status, once its output streams have been decoded to text. On
    /// failure the error is the standard error as it is, or a fixed
    /// description when the process wrote nothing there.
    pub fn from_exit(success: bool, stdout: String, stderr: String) -> (r: GitResult)
        ensures
            r.wf(),
            r.success == success,
            r.output == stdout,
            !success ==> r.error is Some && r.error->0@.len() > 0,
            !success && stderr@.len() > 0 ==> r.error == Some(stderr),
            !success && stderr@.len() == 0 ==> r.error->0@ == silent_failure_text(),
    {
        if success {
            GitResult { success, output: stdout, error: None }
        } else {
            proof {
                reveal_strlit("git exited with a failure status and wrote nothing to standard error");
            }
            let error = or_fallback(
                stderr,
                "git exited with a failure status and wrote nothing to standard error",
            );
            GitResult { success, output: stdout, error: Some(error) }
        }
    }

    /// The result for a process that could not be started at all: no output,
    /// and the reason as the error, or a fixed description when the reason is
    /// empty.
    pub fn from_launch_failure(reason: String) -> (r: GitResult)
        ensures
            r.wf(),
            !r.success,
            r.output@ == Seq::<char>::empty(),
            r.error is Some && r.error->0@.len() > 0,
            reason@.len() > 0 ==> r.error == Some(reason),
            reason@.len() == 0 ==> r.error->0@ == unexplained_launch_failure_text(),
    {
        proof {
            reveal_strlit("the process could not be started");
        }
        let error = or_fallback(reason, "the process could not be started");
        GitResult { success: false, output: String::new(), error: Some(error) }
    }

    /// The result for a process that ran to completion: success follows its
    /// exit status, the output is its standard output as text, and on failure
    /// the error is its standard error as text, or a fixed description when
    /// it wrote nothing there.
    pub fn from_output(out: &ProcessOutput) -> (r: GitResult)
        ensures
            r.wf(),
            r.success == out.success,
            r.output@ == lossy_text(out.stdout@),
            (r.output@.len() == 0) == (out.stdout@.len() == 0),
            !out.success ==> r.error is Some && r.error->0@.len() > 0,
            !out.success && out.stderr@.len() > 0 ==> r.error->0@ == lossy_text(out.stderr@),
            !out.success && out.stderr@.len() == 0 ==> r.error->0@ == silent_failure_text(),
    {
        let stdout = decode_lossy(out.stdout.as_slice());
        let stderr = decode_lossy(out.stderr.as_slice());
        GitResult::from_exit(out.success, stdout, stderr)
    }

    /// The result of one attempt to run a version-control process: either it
    /// ran to completion, or it could not be started for the given reason.
    /// Whatever happened, the result reports an error exactly on failure, and
    /// that error is never empty.
    pub fn from_run(run: Result<ProcessOutput, String>) -> (r: GitResult)
        ensures
            r.wf(),
            !r.success ==> r.error is Some && r.error->0@.len() > 0,
            r.success ==> r.error is None,
            match run {
                Ok(out) => {
                    &&& r.success == out.success
                    &&& r.output@ == lossy_text(out.stdout@)
                    &&& (r.output@.len() == 0) == (out.stdout@.len() == 0)
                    &&& !out.success && out.stderr@.len() > 0 ==> r.error->0@ == lossy_text(
                        out.stderr@,
                    )
                    &&& !out.success && out.stderr@.len() == 0 ==> r.error->0@
                        == silent_failure_text()
                },
                Err(reason) => {
                    &&& !r.success
                    &&& r.output@ == Seq::<char>::empty()
                    &&& reason@.len() > 0 ==> r.error == Some(reason)
                    &&& reason@.len() == 0 ==> r.error->0@ == unexplained_launch_failure_text()
                },
            },
    {
        match run {
            Ok(out) => GitResult::from_output(&out),
            Err(reason) => GitResult::from_launch_failure(reason),
        }
    }
}

impl ShellResult {
    /// An error is reported exactly on failure.
    pub open spec fn wf(&self) -> bool {
        self.success <==> self.error.is_none()
    }

    /// The result for a launcher that was started: success, no error. Whether
    /// the launched program then does its task is not tracked.
    pub fn launched() -> (r: ShellResult)
        ensures
            r.wf(),
            r.success,
            r.error is None,
    {
        ShellResult { success: true, error: None }
    }

    /// The result for a launcher that could not be started, with the reason
    /// as the error, or a fixed description when the reason is empty.
    pub fn launch_failed(reason: String) -> (r: ShellResult)
        ensures
            r.wf(),
            !r.success,
            r.error is Some && r.error->0@.len() > 0,
            reason@.len() > 0 ==> r.error == Some(reason),
            reason@.len() == 0 ==> r.error->0@ == unexplained_launch_failure_text(),
    {
        proof {
            reveal_strlit("the process could not be started");
        }
        let error = or_fallback(reason, "the process could not be started");
        ShellResult { success: false, error: Some(error) }
    }

    /// The result of one attempt to start a detached launcher: `Ok` when the
    /// operating system started it, `Err` with the reason when it did not.
    /// The result reports an error exactly on failure, and that error is
    /// never empty.
    pub fn from_spawn(spawn: Result<(), String>) -> (r: ShellResult)
        ensures
            r.wf(),
            !r.success ==> r.error is Some && r.error->0@.len() > 0,
            r.success ==> r.error is None,
            r.success == spawn is Ok,
            match spawn {
                Ok(()) => r.error is None,
                Err(reason) => {
                    &&& reason@.len() > 0 ==> r.error == Some(reason)
                    &&& reason@.len() == 0 ==> r.error->0@ == unexplained_launch_failure_text()
                },
            },
    {
        match spawn {
            Ok(()) => ShellResult::launched(),
            Err(reason) => ShellResult::launch_failed(reason),
        }
    }
}

} // verus!
