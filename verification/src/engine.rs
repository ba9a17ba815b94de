//! The command execution engine.
//!
//! Running a stored command has four verifiable parts, and this module
//! holds all of them:
//!
//! * validating the working directory before anything is spawned;
//! * fixing the launch convention (`sh -c <command_text>` in that
//!   directory);
//! * splitting the raw bytes of each output pipe into lines tagged with
//!   their origin stream, exactly once each, whatever the chunk
//!   boundaries;
//! * classifying the exit status only after both pipes have been drained.
//!
//! The process itself, its pipes and the threads that drain them live in
//! the surrounding application, which feeds bytes and the exit status to
//! the types below and obeys their contracts.

use vstd::prelude::*;
use vstd::string::*;
use vstd::utf8::{valid_utf8, decode_utf8};

use crate::digits::{int_digits, i64_string};
use crate::errors::LiaCoreError;
use crate::path::SysPath;

verus! {

/// Which output pipe of the child process a line came from.
#[derive(Clone, Copy, Debug, PartialEq, Eq, Structural)]
pub enum OutputOrigin {
    Stdout,
    Stderr,
}

/// One line of child output, tagged with the pipe it came from.
#[derive(Debug)]
pub struct OutputLine {
    pub origin: OutputOrigin,
    pub text: String,
}

/// What a look at the requested working directory found.
#[derive(Clone, Copy, Debug, PartialEq, Eq, Structural)]
pub struct DirProbe {
    pub exists: bool,
    pub is_dir: bool,
}

impl DirProbe {
    /// The directory may be used: it exists and is a directory.
    pub open spec fn valid(self) -> bool {
        self.exists && self.is_dir
    }
}

/// How the child process ended: a normal exit code, or termination by a
/// signal with no code available.
#[derive(Clone, Copy, Debug, PartialEq, Eq, Structural)]
pub enum ExitInfo {
    Code(i32),
    Signal,
}

/// The exit code reported for an ending, with `-1` standing in for
/// termination by signal.
pub open spec fn exit_code_of(e: ExitInfo) -> int {
    match e {
        ExitInfo::Code(c) => c as int,
        ExitInfo::Signal => -1,
    }
}

/// The message reported when a command ends unsuccessfully.
pub open spec fn exit_message(e: ExitInfo) -> Seq<char> {
    "Command exited with status code "@ + int_digits(exit_code_of(e))
}

/// The message reported when a working directory is rejected.
pub open spec fn invalid_dir_message(path: Seq<char>) -> Seq<char> {
    "Path does not exist or is not a directory: "@ + path
}

/// The terminal classification of one execution.  Synchronous runs carry
/// the captured output; streaming runs leave the buffers empty, the lines
/// having already been delivered.
#[derive(Debug)]
pub struct ExecutionOutcome {
    pub succeeded: bool,
    pub exit_code: Option<i32>,
    pub raw_stdout: Option<Vec<u8>>,
    pub raw_stderr: Option<Vec<u8>>,
}

/// Exactly what the launcher must start: the POSIX shell, its command
/// flag, the command text, and the working directory.
pub struct SpawnSpec {
    pub shell: String,
    pub flag: String,
    pub command_text: String,
    pub working_directory: SysPath,
}

/// The decision taken before any process exists: reject the request, or
/// spawn the given process.
pub enum LaunchDecision {
    Reject(LiaCoreError),
    Spawn(SpawnSpec),
}

/// Everything a finished synchronous run produced.
pub struct CapturedOutput {
    pub exit: ExitInfo,
    pub stdout: Vec<u8>,
    pub stderr: Vec<u8>,
}

pub struct CmdEngine;

impl CmdEngine {
    /// Decides whether an execution request may proceed.  An invalid
    /// working directory is rejected — no spawn instruction is ever
    /// produced for it — and a valid one yields the exact process to
    /// start: `sh -c <command_text>` in that directory.
    pub fn prepare_execution(command_text: &str, path: &SysPath, probe: &DirProbe) -> (r:
        LaunchDecision)
        ensures
            probe.valid() ==> (r matches LaunchDecision::Spawn(s) && s.shell@ == "sh"@ && s.flag@
                == "-c"@ && s.command_text@ == command_text@ && s.working_directory@ == path@),
            !probe.valid() ==> (r matches LaunchDecision::Reject(e) && e matches
                LiaCoreError::InvalidInputError(m) && m@ == invalid_dir_message(path@)),
    {
        if probe.exists && probe.is_dir {
            LaunchDecision::Spawn(
                SpawnSpec {
                    shell: String::from_str("sh"),
                    flag: String::from_str("-c"),
                    command_text: String::from_str(command_text),
                    working_directory: path.clone(),
                },
            )
        } else {
            let mut m = String::new();
            m.append("Path does not exist or is not a directory: ");
            m.append(path.as_str());
            LaunchDecision::Reject(LiaCoreError::InvalidInputError(m))
        }
    }

    /// Classifies how a process ended: code zero succeeded; any other
    /// code failed with that code; a signal-terminated process failed
    /// with the sentinel code `-1`.
    pub fn classify_exit(exit: &ExitInfo) -> (out: ExecutionOutcome)
        ensures
            out.succeeded == (*exit == ExitInfo::Code(0i32)),
            out.exit_code matches Some(c) && c as int == exit_code_of(*exit),
            out.raw_stdout is None,
            out.raw_stderr is None,
    {
        let code: i32 = match exit {
            ExitInfo::Code(c) => *c,
            ExitInfo::Signal => -1,
        };
        ExecutionOutcome {
            succeeded: code == 0,
            exit_code: Some(code),
            raw_stdout: None,
            raw_stderr: None,
        }
    }

    /// Finishes a synchronous run.  A zero exit yields the successful
    /// outcome carrying both captured buffers; anything else is reported
    /// as a command execution failure naming the exit code.
    pub fn collect_sync(cap: CapturedOutput) -> (r: Result<ExecutionOutcome, LiaCoreError>)
        ensures
            cap.exit == ExitInfo::Code(0i32) ==> (r matches Ok(out) && out.succeeded
                && out.exit_code == Some(0i32) && (out.raw_stdout matches Some(b) && b@
                == cap.stdout@) && (out.raw_stderr matches Some(b) && b@ == cap.stderr@)),
            cap.exit != ExitInfo::Code(0i32) ==> (r matches Err(e) && e matches
                LiaCoreError::CommandExecutionError(m) && m@ == exit_message(cap.exit)),
    {
        match cap.exit {
            ExitInfo::Code(0i32) => Ok(
                ExecutionOutcome {
                    succeeded: true,
                    exit_code: Some(0),
                    raw_stdout: Some(cap.stdout),
                    raw_stderr: Some(cap.stderr),
                },
            ),
            _ => Err(exit_error(&cap.exit)),
        }
    }

    /// Whether the process runs with elevated privilege.  On POSIX the
    /// caller passes the effective user id and the answer is true exactly
    /// for root (id zero); elsewhere there is no user id to pass and the
    /// answer is false.
    pub fn is_sudo_user(effective_uid: Option<u32>) -> (r: bool)
        ensures
            r == (effective_uid == Some(0u32)),
    {
        match effective_uid {
            Some(uid) => uid == 0,
            None => false,
        }
    }
}

/// The command-execution failure for a given ending.
fn exit_error(exit: &ExitInfo) -> (e: LiaCoreError)
    ensures
        e matches LiaCoreError::CommandExecutionError(m) && m@ == exit_message(*exit),
{
    let code: i64 = match exit {
        ExitInfo::Code(c) => *c as i64,
        ExitInfo::Signal => -1,
    };
    let mut m = String::new();
    m.append("Command exited with status code ");
    let num = i64_string(code);
    m.append(num.as_str());
    LiaCoreError::CommandExecutionError(m)
}

/// A completed line loses one trailing carriage return, so that a
/// `\r\n` terminator reads like a plain newline.
pub open spec fn chomp_cr(s: Seq<u8>) -> Seq<u8> {
    if s.len() > 0 && s.last() == 13u8 {
        s.drop_last()
    } else {
        s
    }
}

/// The bytes still waiting for a terminator after a pump that held
/// `init` has read `s`.
pub open spec fn carry_after(init: Seq<u8>, s: Seq<u8>) -> Seq<u8>
    decreases s.len(),
{
    if s.len() == 0 {
        init
    } else if s.last() == 10u8 {
        Seq::empty()
    } else {
        carry_after(init, s.drop_last()).push(s.last())
    }
}

/// The complete lines emitted by a pump that held `init` while reading
/// `s`: one line per newline byte, each without its terminator.
pub open spec fn lines_after(init: Seq<u8>, s: Seq<u8>) -> Seq<Seq<u8>>
    decreases s.len(),
{
    if s.len() == 0 {
        Seq::empty()
    } else {
        let prev = lines_after(init, s.drop_last());
        if s.last() == 10u8 {
            prev.push(chomp_cr(carry_after(init, s.drop_last())))
        } else {
            prev
        }
    }
}

/// One output pump: it owns the partial line of a single pipe and turns
/// the pipe's bytes into complete lines.
pub struct LinePump {
    pub origin: OutputOrigin,
    pub buf: Vec<u8>,
}

impl LinePump {
    /// A fresh pump for one pipe, holding nothing.
    pub fn new(origin: OutputOrigin) -> (p: LinePump)
        ensures
            p.origin == origin,
            p.buf@ == Seq::<u8>::empty(),
    {
        LinePump { origin, buf: Vec::new() }
    }

    /// Feeds one chunk of raw bytes to the pump.  The returned lines are
    /// exactly the lines completed by this chunk, in order; the bytes
    /// after the last terminator stay in the pump.  No byte is lost and
    /// none is delivered twice, wherever the chunk boundaries fall.
    pub fn feed(&mut self, chunk: &[u8]) -> (lines: Vec<Vec<u8>>)
        ensures
            final(self).origin == old(self).origin,
            final(self).buf@ == carry_after(old(self).buf@, chunk@),
            lines@.len() == lines_after(old(self).buf@, chunk@).len(),
            forall|k: int|
                0 <= k < lines@.len() ==> #[trigger] lines@[k]@ == lines_after(
                    old(self).buf@,
                    chunk@,
                )[k],
    {
        let ghost init = old(self).buf@;
        let mut lines: Vec<Vec<u8>> = Vec::new();
        let mut j: usize = 0;
        while j < chunk.len()
            invariant
                j <= chunk.len(),
                self.origin == old(self).origin,
                self.buf@ == carry_after(init, chunk@.take(j as int)),
                lines@.len() == lines_after(init, chunk@.take(j as int)).len(),
                forall|k: int|
                    0 <= k < lines@.len() ==> #[trigger] lines@[k]@ == lines_after(
                        init,
                        chunk@.take(j as int),
                    )[k],
            decreases chunk.len() - j,
        {
            proof {
                assert(chunk@.take(j + 1).drop_last() =~= chunk@.take(j as int));
            }
            let b = chunk[j];
            if b == 10u8 {
                let mut line = self.buf.clone();
                if line.len() > 0 {
                    if line[line.len() - 1] == 13u8 {
                        line.pop();
                    }
                }
                proof {
                    assert(line@ =~= chomp_cr(carry_after(init, chunk@.take(j as int))));
                }
                self.buf.clear();
                lines.push(line);
            } else {
                self.buf.push(b);
            }
            j += 1;
        }
        proof {
            assert(chunk@.take(chunk@.len() as int) =~= chunk@);
        }
        lines
    }

    /// Ends the pump's stream.  A trailing partial line without a
    /// terminator is flushed as a final line, exactly as it stands.
    pub fn finish(&mut self) -> (last: Option<Vec<u8>>)
        ensures
            final(self).origin == old(self).origin,
            final(self).buf@ == Seq::<u8>::empty(),
            old(self).buf@.len() == 0 ==> last is None,
            old(self).buf@.len() > 0 ==> (last matches Some(l) && l@ == old(self).buf@),
    {
        if self.buf.len() == 0 {
            None
        } else {
            let l = self.buf.clone();
            self.buf.clear();
            Some(l)
        }
    }
}

/// Turns the bytes of one line into a tagged `OutputLine`.  A line
/// that is not valid UTF-8 cannot be shown as text and is dropped.
pub fn decode_line(origin: OutputOrigin, bytes: Vec<u8>) -> (r: Option<OutputLine>)
    ensures
        valid_utf8(bytes@) ==> (r matches Some(line) && line.origin == origin && line.text@
            == decode_utf8(bytes@)),
        !valid_utf8(bytes@) ==> r is None,
{
    match string_from_utf8(bytes) {
        Ok(text) => Some(OutputLine { origin, text }),
        Err(_) => None,
    }
}

/// Relies on `String::from_utf8`: it succeeds exactly on valid UTF-8 and
/// returns the decoded characters.
#[verifier::external_body]
fn string_from_utf8(bytes: Vec<u8>) -> (r: Result<String, ()>)
    ensures
        r matches Ok(s) ==> valid_utf8(bytes@) && s@ == decode_utf8(bytes@),
        valid_utf8(bytes@) ==> r is Ok,
{
    match String::from_utf8(bytes) {
        Ok(s) => Ok(s),
        Err(_) => Err(()),
    }
}

/// The drain-then-wait protocol of one streaming execution.  The child
/// may be waited on — and its ending classified — only after both pipes
/// have reported end-of-stream, and only once.
pub struct StreamSession {
    pub stdout_done: bool,
    pub stderr_done: bool,
    pub collected: bool,
}

impl StreamSession {
    /// A streaming execution that has just spawned: nothing drained,
    /// nothing collected.
    pub fn start() -> (s: StreamSession)
        ensures
            !s.stdout_done,
            !s.stderr_done,
            !s.collected,
    {
        StreamSession { stdout_done: false, stderr_done: false, collected: false }
    }

    /// Records that one pipe reached end-of-stream.  The other pipe's
    /// state is untouched, and a collected session accepts no more
    /// events.
    pub fn mark_stream_done(&mut self, origin: OutputOrigin)
        requires
            !old(self).collected,
        ensures
            !final(self).collected,
            origin == OutputOrigin::Stdout ==> final(self).stdout_done && final(self).stderr_done
                == old(self).stderr_done,
            origin == OutputOrigin::Stderr ==> final(self).stderr_done && final(self).stdout_done
                == old(self).stdout_done,
    {
        match origin {
            OutputOrigin::Stdout => {
                self.stdout_done = true;
            },
            OutputOrigin::Stderr => {
                self.stderr_done = true;
            },
        }
    }

    /// Whether the child may now be waited on: both pipes drained and
    /// the exit status not yet collected.
    pub fn ready_to_collect(&self) -> (r: bool)
        ensures
            r == (self.stdout_done && self.stderr_done && !self.collected),
    {
        self.stdout_done && self.stderr_done && !self.collected
    }

    /// Classifies the exit of a fully drained streaming execution: `Ok`
    /// exactly for exit code zero, otherwise the command execution
    /// failure naming the code.  A session is collected at most once.
    pub fn collect(&mut self, exit: &ExitInfo) -> (r: Result<(), LiaCoreError>)
        requires
            old(self).stdout_done,
            old(self).stderr_done,
            !old(self).collected,
        ensures
            final(self).collected,
            final(self).stdout_done,
            final(self).stderr_done,
            *exit == ExitInfo::Code(0i32) ==> r is Ok,
            *exit != ExitInfo::Code(0i32) ==> (r matches Err(e) && e matches
                LiaCoreError::CommandExecutionError(m) && m@ == exit_message(*exit)),
    {
        self.collected = true;
        match exit {
            ExitInfo::Code(0i32) => Ok(()),
            _ => Err(exit_error(exit)),
        }
    }
}

/// Feeding a pipe's bytes in two chunks delivers exactly the lines of
/// their concatenation: chunk boundaries neither lose, duplicate nor
/// reorder output.
pub proof fn lemma_pump_chunking(init: Seq<u8>, a: Seq<u8>, b: Seq<u8>)
    ensures
        carry_after(init, a + b) == carry_after(carry_after(init, a), b),
        lines_after(init, a + b) == lines_after(init, a) + lines_after(carry_after(init, a), b),
    decreases b.len(),
{
    if b.len() == 0 {
        assert(a + b =~= a);
        assert(lines_after(init, a) + lines_after(carry_after(init, a), b) =~= lines_after(
            init,
            a,
        ));
    } else {
        lemma_pump_chunking(init, a, b.drop_last());
        assert((a + b).drop_last() =~= a + b.drop_last());
        assert((a + b).last() == b.last());
        if b.last() == 10u8 {
            assert(lines_after(init, a + b) =~= lines_after(init, a) + lines_after(
                carry_after(init, a),
                b,
            ));
        } else {
            assert(lines_after(init, a + b) =~= lines_after(init, a) + lines_after(
                carry_after(init, a),
                b,
            ));
        }
    }
}

/// The carried partial line never holds a terminator, as long as the
/// bytes it started from held none.
proof fn lemma_carry_no_terminator(init: Seq<u8>, s: Seq<u8>)
    requires
        forall|i: int| 0 <= i < init.len() ==> init[i] != 10u8,
    ensures
        forall|i: int|
            0 <= i < carry_after(init, s).len() ==> #[trigger] carry_after(init, s)[i] != 10u8,
    decreases s.len(),
{
    if s.len() == 0 || s.last() == 10u8 {
    } else {
        lemma_carry_no_terminator(init, s.drop_last());
        let prev = carry_after(init, s.drop_last());
        let cur = carry_after(init, s);
        assert forall|i: int| 0 <= i < cur.len() implies cur[i] != 10u8 by {
            if i < prev.len() {
                assert(cur[i] == prev[i]);
            } else {
                assert(cur[i] == s.last());
            }
        }
    }
}

/// Line-oriented framing: a pump never delivers a line with a
/// terminator byte inside it, as long as the bytes it started from held
/// none — and a fresh pump starts from none.
pub proof fn lemma_lines_have_no_terminator(init: Seq<u8>, s: Seq<u8>)
    requires
        forall|i: int| 0 <= i < init.len() ==> init[i] != 10u8,
    ensures
        forall|k: int, i: int|
            0 <= k < lines_after(init, s).len() && 0 <= i < lines_after(init, s)[k].len()
                ==> #[trigger] lines_after(init, s)[k][i] != 10u8,
    decreases s.len(),
{
    if s.len() == 0 {
    } else {
        lemma_lines_have_no_terminator(init, s.drop_last());
        let prev = lines_after(init, s.drop_last());
        let cur = lines_after(init, s);
        if s.last() == 10u8 {
            lemma_carry_no_terminator(init, s.drop_last());
            let carried = carry_after(init, s.drop_last());
            let pushed = chomp_cr(carried);
            assert forall|k: int, i: int|
                0 <= k < cur.len() && 0 <= i < cur[k].len() implies #[trigger] cur[k][i]
                != 10u8 by {
                if k < prev.len() {
                    assert(cur[k] == prev[k]);
                } else {
                    assert(cur[k] == pushed);
                    assert(pushed[i] == carried[i]);
                }
            }
        }
    }
}

} // verus!
