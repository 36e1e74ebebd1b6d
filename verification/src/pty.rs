//! The shell process behind a session: how it is to be started, and how what
//! the PTY gives back is read.
//!
//! Nothing here touches a PTY. The driver opens it, spawns the process that a
//! `TerminalProcess` describes, and hands over what its reads and probes gave.

use crate::config::{ShellConfig, TerminalSize};
use crate::error::SessionError;
use crate::text::{opt_str_text, opt_text, same_text};
use vstd::prelude::*;
use vstd::slice::{slice_subrange, slice_to_vec};
use vstd::utf8::encode_utf8;

verus! {

/// The size of a PTY window, as the PTY takes it.
#[derive(Clone, Copy, Debug, PartialEq, Eq, Structural)]
pub struct WindowSize {
    pub rows: u16,
    pub columns: u16,
}

/// What a probe of the child process without waiting gave.
#[derive(Clone, Copy, Debug, PartialEq, Eq, Structural)]
pub enum ExitProbe {
    /// The child has not exited.
    Running,
    /// The child has exited.
    Exited,
    /// The probe itself failed.
    Failed,
}

/// A shell process as it is to be started.
#[derive(Debug, PartialEq, Eq)]
pub struct TerminalProcess {
    pub program: String,
    pub arguments: Vec<String>,
    /// The directory to start in; `None` for the directory of the server.
    pub working_directory: Option<String>,
    /// Environment variables as name and value, in the order they are applied.
    pub environment: Vec<(String, String)>,
    /// The size to give the PTY before the process starts; `None` for the
    /// size that the PTY has of itself.
    pub terminal_size: Option<TerminalSize>,
}

/// The text that `String::from_utf8_lossy` makes of these bytes.
pub uninterp spec fn lossy_text(bytes: Seq<u8>) -> Seq<char>;

/// Decodes bytes as UTF-8 with `String::from_utf8_lossy`, which puts U+FFFD in
/// the place of each invalid sequence. Trusted: the result is a function of the
/// bytes alone, named `lossy_text`.
#[verifier::external_body]
fn decode_lossy(bytes: &[u8]) -> (text: String)
    ensures
        text@ == lossy_text(bytes@),
{
    String::from_utf8_lossy(bytes).into_owned()
}

/// The window that a resize to `columns` by `rows` asks of the PTY: each
/// number reduced to its low 16 bits.
pub open spec fn spec_window_size(columns: u32, rows: u32) -> WindowSize {
    WindowSize { rows: (rows % 0x1_0000) as u16, columns: (columns % 0x1_0000) as u16 }
}

/// The directory that a configured working directory stands for: `.` for the
/// empty text; for the token `${USERPROFILE}` the value of that variable, or
/// `.` where it is unset; any other text as it is.
pub open spec fn spec_resolve_working_directory(
    configured: Seq<char>,
    user_profile: Option<Seq<char>>,
) -> Seq<char> {
    if configured.len() == 0 {
        "."@
    } else if configured == "${USERPROFILE}"@ {
        match user_profile {
            Some(profile) => profile,
            None => "."@,
        }
    } else {
        configured
    }
}

/// `process` is the process that the shell configuration `shell` asks for:
/// the first word of the command is the program, the rest are its arguments;
/// the environment and the size are those of the configuration; the working
/// directory, where one is configured, is resolved.
pub open spec fn spec_planned(
    shell: ShellConfig,
    user_profile: Option<Seq<char>>,
    process: TerminalProcess,
) -> bool {
    &&& shell.command@.len() > 0
    &&& process.program == shell.command@[0]
    &&& process.arguments@ == shell.command@.skip(1)
    &&& process.environment@ == shell.environment@
    &&& process.terminal_size == shell.terminal_size
    &&& opt_text(process.working_directory) == match shell.working_directory {
        Some(configured) => Some(spec_resolve_working_directory(configured@, user_profile)),
        None => None,
    }
}

/// Resolves a configured working directory. `user_profile` is the value of the
/// environment variable `USERPROFILE`, `None` where it is unset.
pub fn resolve_working_directory(configured: &str, user_profile: Option<&str>) -> (resolved:
    String)
    ensures
        resolved@ == spec_resolve_working_directory(configured@, opt_str_text(user_profile)),
{
    if configured.is_empty() {
        ".".to_owned()
    } else if same_text(configured, "${USERPROFILE}") {
        match user_profile {
            Some(profile) => profile.to_owned(),
            None => ".".to_owned(),
        }
    } else {
        configured.to_owned()
    }
}

/// The text of a chunk of `n` bytes read into `buffer`: empty at the end of
/// the stream, else the lossy decoding of the bytes read.
pub open spec fn spec_chunk_text(buffer: Seq<u8>, n: int) -> Seq<char> {
    if n == 0 {
        Seq::<char>::empty()
    } else {
        lossy_text(buffer.subrange(0, n))
    }
}

/// What the two reads of one round give together: the output where there is
/// some; where the read of the output gave nothing, whatever the read of the
/// error stream gave; where the read of the output failed, its error.
pub open spec fn spec_read_output(
    stdout: Result<Seq<char>, SessionError>,
    stderr: Result<Seq<char>, SessionError>,
) -> Result<Seq<char>, SessionError> {
    match stdout {
        Ok(text) => if text.len() > 0 {
            stdout
        } else {
            stderr
        },
        Err(error) => Err(error),
    }
}

/// The view of a read's result.
pub open spec fn read_view(read: Result<String, SessionError>) -> Result<
    Seq<char>,
    SessionError,
> {
    match read {
        Ok(text) => Ok(text@),
        Err(error) => Err(error),
    }
}

impl TerminalProcess {
    /// Plans the process of the shell of the user: the program that the
    /// environment variable `SHELL` names, of which `shell` is the value, or
    /// `bash` where it is unset; no arguments, the directory and the
    /// environment of the server.
    pub fn new(shell: Option<&str>) -> (process: TerminalProcess)
        ensures
            process.program@ == match shell {
                Some(program) => program@,
                None => "bash"@,
            },
            process.arguments@.len() == 0,
            process.working_directory is None,
            process.environment@.len() == 0,
            process.terminal_size is None,
    {
        let program: String = match shell {
            Some(program) => program.to_owned(),
            None => "bash".to_owned(),
        };
        TerminalProcess {
            program,
            arguments: Vec::new(),
            working_directory: None,
            environment: Vec::new(),
            terminal_size: None,
        }
    }

    /// Plans the process of a shell configuration: the first word of the
    /// command is the program, the rest are its arguments; the working
    /// directory is resolved; the environment and the size are taken over. A
    /// configuration with an empty command cannot be started: `SpawnFailed`.
    pub fn new_with_config(shell_config: &ShellConfig, user_profile: Option<&str>) -> (planned:
        Result<TerminalProcess, SessionError>)
        ensures
            match planned {
                Ok(process) => spec_planned(*shell_config, opt_str_text(user_profile), process),
                Err(error) => error == SessionError::SpawnFailed && shell_config.command@.len()
                    == 0,
            },
    {
        if shell_config.command.len() == 0 {
            return Err(SessionError::SpawnFailed);
        }
        let program: String = shell_config.command[0].clone();
        let mut arguments: Vec<String> = Vec::new();
        let mut i: usize = 1;
        while i < shell_config.command.len()
            invariant
                1 <= i <= shell_config.command@.len(),
                arguments@ == shell_config.command@.subrange(1, i as int),
            decreases shell_config.command@.len() - i,
        {
            arguments.push(shell_config.command[i].clone());
            i = i + 1;
        }
        let working_directory: Option<String> = match &shell_config.working_directory {
            Some(configured) => Some(resolve_working_directory(configured.as_str(), user_profile)),
            None => None,
        };
        let mut environment: Vec<(String, String)> = Vec::new();
        let mut k: usize = 0;
        while k < shell_config.environment.len()
            invariant
                k <= shell_config.environment@.len(),
                environment@ == shell_config.environment@.take(k as int),
            decreases shell_config.environment@.len() - k,
        {
            let name: String = shell_config.environment[k].0.clone();
            let value: String = shell_config.environment[k].1.clone();
            environment.push((name, value));
            k = k + 1;
        }
        assert(shell_config.environment@.take(k as int) =~= shell_config.environment@);
        Ok(
            TerminalProcess {
                program,
                arguments,
                working_directory,
                environment,
                terminal_size: shell_config.terminal_size,
            },
        )
    }

    /// The bytes that are written to the PTY for the input `data`: its UTF-8
    /// encoding, all of it.
    pub fn write_input(data: &str) -> (bytes: Vec<u8>)
        ensures
            bytes@ == encode_utf8(data@),
    {
        slice_to_vec(data.as_bytes())
    }

    /// The text of what a read put into `buffer`, `n` bytes of it.
    pub fn read_stdout(buffer: &[u8], n: usize) -> (text: String)
        requires
            n <= buffer@.len(),
        ensures
            text@ == spec_chunk_text(buffer@, n as int),
    {
        if n == 0 {
            String::new()
        } else {
            decode_lossy(slice_subrange(buffer, 0, n))
        }
    }

    /// The text of the error stream. A PTY carries the error output of the
    /// child in its one stream, so there is never any.
    pub fn read_stderr(_buffer: &[u8]) -> (text: String)
        ensures
            text@ == Seq::<char>::empty(),
    {
        String::new()
    }

    /// Puts the two reads of one round together. A read of the output that
    /// failed comes back as the failure it was, never as an empty chunk.
    pub fn read_output(
        stdout: Result<String, SessionError>,
        stderr: Result<String, SessionError>,
    ) -> (output: Result<String, SessionError>)
        ensures
            read_view(output) == spec_read_output(read_view(stdout), read_view(stderr)),
    {
        match stdout {
            Ok(text) => {
                if text.as_str().is_empty() {
                    stderr
                } else {
                    Ok(text)
                }
            },
            Err(error) => Err(error),
        }
    }

    /// The window that a resize to `columns` by `rows` asks of the PTY.
    pub fn resize(columns: u32, rows: u32) -> (window: WindowSize)
        ensures
            window == spec_window_size(columns, rows),
    {
        WindowSize { rows: (rows % 0x1_0000) as u16, columns: (columns % 0x1_0000) as u16 }
    }

    /// Whether the child counts as running: only where the probe saw it alive.
    pub fn is_running(probe: ExitProbe) -> (running: bool)
        ensures
            running == (probe == ExitProbe::Running),
    {
        match probe {
            ExitProbe::Running => true,
            _ => false,
        }
    }
}

} // verus!
