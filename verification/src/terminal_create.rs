//! The creation of terminals: what command is started, under which id it is entered, and what the
//! readers of its output do.

use crate::rpc::{internal_error, internal_error_view, RpcError, RpcErrorView};
use crate::terminal::{utf8_lossy, TerminalRegistry, TerminalState, TerminalView};
use crate::terminal_call::{lock_poisoned, poison_message, Lock};
use std::sync::Arc;
use vstd::prelude::*;
use vstd::utf8::{decode_utf8, encode_utf8, valid_utf8};

verus! {

broadcast use vstd::string::group_string_axioms;

/// A variable of a command's environment.
#[derive(Debug, PartialEq, Eq)]
pub struct EnvVariable {
    pub name: String,
    pub value: String,
}

/// An agent's request for a new terminal.
pub struct CreateTerminalRequest {
    pub command: String,
    pub args: Vec<String>,
    pub env: Vec<EnvVariable>,
    pub cwd: Option<Vec<u8>>,
    pub output_byte_limit: Option<u64>,
}

/// A command to start: without input, its two outputs read through pipes, its environment the
/// client's own with `env` set on top of it, in order.
#[derive(Debug, PartialEq, Eq)]
pub struct TerminalCommand {
    pub program: String,
    pub args: Vec<String>,
    pub env: Vec<EnvVariable>,
    pub cwd: Vec<u8>,
}

/// One of a command's outputs.
#[derive(Clone, Copy, Debug, PartialEq, Eq, Structural)]
pub enum OutputStream {
    Stdout,
    Stderr,
}

/// The next thing to do for a terminal that is being created.
#[derive(Debug, PartialEq, Eq)]
pub enum CreateStep {
    /// Start the command.
    Spawn(TerminalCommand),
    /// Start a reader for each of the streams, and enter the terminal into the table.
    Register { id: String, terminal: TerminalState, readers: Vec<OutputStream> },
    /// Nothing: this is the reply, the new terminal's id.
    Done(Result<String, RpcError>),
}

/// A terminal on its way into the table.
pub struct TerminalCreation {
    pub output_byte_limit: Option<u64>,
    pub step: CreateStep,
}

/// The directory that a command starts in: the one that the request names, else the default.
pub open spec fn start_directory(cwd: Option<Vec<u8>>, default_cwd: Seq<u8>) -> Seq<u8> {
    match cwd {
        Some(dir) => dir@,
        None => default_cwd,
    }
}

/// The outputs of a started command that there is something to read from.
pub open spec fn open_streams(stdout: bool, stderr: bool) -> Seq<OutputStream> {
    (if stdout {
        seq![OutputStream::Stdout]
    } else {
        Seq::empty()
    }) + (if stderr {
        seq![OutputStream::Stderr]
    } else {
        Seq::empty()
    })
}

/// The id of the terminal that was given `uuid`.
pub open spec fn terminal_id(uuid: Seq<char>) -> Seq<char> {
    "terminal-"@ + uuid
}

/// A lower-case hexadecimal digit.
pub open spec fn is_hex_digit(c: char) -> bool {
    '0' <= c <= '9' || 'a' <= c <= 'f'
}

/// The text of a random (version 4) UUID: five groups of lower-case hexadecimal digits with
/// hyphens between them, the version and the variant at their places.
pub open spec fn is_random_uuid(text: Seq<char>) -> bool {
    &&& text.len() == 36
    &&& text[8] == '-' && text[13] == '-' && text[18] == '-' && text[23] == '-'
    &&& text[14] == '4'
    &&& text[19] == '8' || text[19] == '9' || text[19] == 'a' || text[19] == 'b'
    &&& forall|i: int|
        0 <= i < 36 && i != 8 && i != 13 && i != 18 && i != 23 ==> is_hex_digit(#[trigger] text[i])
}

/// Calls `uuid::Uuid::new_v4` and writes the UUID out. Trusted: the text is that of a random UUID.
/// Which one it is rests on the operating system's random numbers; without those the call panics.
#[verifier::external_body]
fn random_uuid() -> (text: String)
    ensures
        is_random_uuid(text@),
{
    uuid::Uuid::new_v4().to_string()
}

impl TerminalCreation {
    /// A step that names a started command's terminal by `uuid`.
    pub open spec fn registers(
        self,
        uuid: Seq<char>,
        stdout: bool,
        stderr: bool,
        output_byte_limit: Option<u64>,
    ) -> bool {
        &&& self.output_byte_limit == output_byte_limit
        &&& self.step matches CreateStep::Register { id, terminal, readers }
        &&& id@ == terminal_id(uuid)
        &&& terminal@ == TerminalView::started(output_byte_limit)
        &&& readers@ == open_streams(stdout, stderr)
    }

    /// The creation has failed with `error`.
    pub open spec fn fails_with(self, error: RpcErrorView) -> bool {
        self.step matches CreateStep::Done(Err(e)) && e@ == error
    }

    /// Begins the creation of a terminal.
    pub fn create_terminal(request: CreateTerminalRequest, default_cwd: &[u8]) -> (creation: Self)
        ensures
            creation.output_byte_limit == request.output_byte_limit,
            creation.step matches CreateStep::Spawn(command) && {
                &&& command.program == request.command
                &&& command.args == request.args
                &&& command.env == request.env
                &&& command.cwd@ == start_directory(request.cwd, default_cwd@)
                &&& request.cwd matches Some(dir) ==> command.cwd@ == dir@
                &&& request.cwd is None ==> command.cwd@ == default_cwd@
            },
    {
        let cwd = match request.cwd {
            Some(dir) => dir,
            None => vstd::slice::slice_to_vec(default_cwd),
        };
        TerminalCreation {
            output_byte_limit: request.output_byte_limit,
            step: CreateStep::Spawn(
                TerminalCommand {
                    program: request.command,
                    args: request.args,
                    env: request.env,
                    cwd,
                },
            ),
        }
    }

    /// The command has started; which of its outputs can be read is given. Its terminal gets a
    /// random id.
    pub fn spawned(self, stdout: bool, stderr: bool) -> (creation: Self)
        ensures
            match self.step {
                CreateStep::Spawn(_) => exists|uuid: Seq<char>|
                    #![trigger terminal_id(uuid)]
                    is_random_uuid(uuid) && creation.registers(
                        uuid,
                        stdout,
                        stderr,
                        self.output_byte_limit,
                    ),
                _ => creation == self,
            },
            creation.output_byte_limit == self.output_byte_limit,
            self.step is Spawn ==> (creation.step matches CreateStep::Register {
                id,
                terminal,
                readers,
            } && {
                &&& id@.len() == "terminal-"@.len() + 36
                &&& id@.take("terminal-"@.len() as int) == "terminal-"@
                &&& terminal.output@.len() == 0
                &&& !terminal.truncated
                &&& terminal.exit_status is None
                &&& terminal.output_byte_limit == self.output_byte_limit
                &&& stdout && stderr ==> readers@ == seq![
                    OutputStream::Stdout,
                    OutputStream::Stderr,
                ]
                &&& stdout && !stderr ==> readers@ == seq![OutputStream::Stdout]
                &&& !stdout && stderr ==> readers@ == seq![OutputStream::Stderr]
                &&& !stdout && !stderr ==> readers@.len() == 0
            }),
    {
        match self.step {
            CreateStep::Spawn(_) => {
                let uuid = random_uuid();
                assert(("terminal-"@ + uuid@).take("terminal-"@.len() as int) =~= "terminal-"@);
                assert(terminal_id(uuid@) == "terminal-"@ + uuid@);
                self.spawned_as(uuid.as_str(), stdout, stderr)
            },
            _ => self,
        }
    }

    /// The command has started, and its terminal is to be known by `uuid`.
    pub fn spawned_as(self, uuid: &str, stdout: bool, stderr: bool) -> (creation: Self)
        ensures
            match self.step {
                CreateStep::Spawn(_) => creation.registers(
                    uuid@,
                    stdout,
                    stderr,
                    self.output_byte_limit,
                ),
                _ => creation == self,
            },
            creation.output_byte_limit == self.output_byte_limit,
            self.step is Spawn ==> (creation.step matches CreateStep::Register {
                id,
                terminal,
                readers,
            } && {
                &&& id@ == "terminal-"@ + uuid@
                &&& terminal.output@.len() == 0
                &&& !terminal.truncated
                &&& terminal.exit_status is None
                &&& terminal.output_byte_limit == self.output_byte_limit
                &&& stdout && stderr ==> readers@ == seq![
                    OutputStream::Stdout,
                    OutputStream::Stderr,
                ]
                &&& stdout && !stderr ==> readers@ == seq![OutputStream::Stdout]
                &&& !stdout && stderr ==> readers@ == seq![OutputStream::Stderr]
                &&& !stdout && !stderr ==> readers@.len() == 0
            }),
    {
        match self.step {
            CreateStep::Spawn(_) => {
                let mut id = "terminal-".to_owned();
                id.append(uuid);
                let mut readers: Vec<OutputStream> = Vec::new();
                if stdout {
                    readers.push(OutputStream::Stdout);
                }
                if stderr {
                    readers.push(OutputStream::Stderr);
                }
                assert(readers@ =~= open_streams(stdout, stderr));
                assert(stdout && stderr ==> readers@ =~= seq![
                    OutputStream::Stdout,
                    OutputStream::Stderr,
                ]);
                assert(stdout && !stderr ==> readers@ =~= seq![OutputStream::Stdout]);
                assert(!stdout && stderr ==> readers@ =~= seq![OutputStream::Stderr]);
                TerminalCreation {
                    output_byte_limit: self.output_byte_limit,
                    step: CreateStep::Register {
                        id,
                        terminal: TerminalState::new(self.output_byte_limit),
                        readers,
                    },
                }
            },
            _ => self,
        }
    }

    /// The command could not be started.
    pub fn spawn_failed(self, message: &str) -> (creation: Self)
        ensures
            match self.step {
                CreateStep::Spawn(_) => creation.fails_with(internal_error_view(message@)),
                _ => creation == self,
            },
            self.step is Spawn ==> (creation.step matches CreateStep::Done(Err(error)) && error.code
                == -32603 && (error.data matches Some(detail) && detail@ == message@)),
            creation.output_byte_limit == self.output_byte_limit,
    {
        match self.step {
            CreateStep::Spawn(_) => TerminalCreation {
                output_byte_limit: self.output_byte_limit,
                step: CreateStep::Done(Err(internal_error(message))),
            },
            _ => self,
        }
    }

    /// Enters the terminal into the table, under the id that is replied.
    pub fn register<T>(self, terminals: &mut TerminalRegistry<T>, terminal: Arc<T>) -> (creation:
        Self)
        ensures
            match self.step {
                CreateStep::Register { id, .. } => {
                    &&& final(terminals)@ == old(terminals)@.insert(id@, terminal)
                    &&& creation.step == CreateStep::Done(Ok(id))
                },
                _ => final(terminals)@ == old(terminals)@ && creation == self,
            },
            creation.output_byte_limit == self.output_byte_limit,
    {
        match self.step {
            CreateStep::Register { id, .. } => {
                terminals.insert(id.clone(), terminal);
                TerminalCreation {
                    output_byte_limit: self.output_byte_limit,
                    step: CreateStep::Done(Ok(id)),
                }
            },
            _ => self,
        }
    }

    /// The table's lock is poisoned.
    pub fn registry_poisoned(self) -> (creation: Self)
        ensures
            match self.step {
                CreateStep::Register { .. } => creation.fails_with(
                    internal_error_view(poison_message(Lock::Registry)),
                ),
                _ => creation == self,
            },
            self.step is Register ==> (creation.step matches CreateStep::Done(Err(error))
                && error.code == -32603 && (error.data matches Some(detail) && detail@
                == "terminal state lock poisoned"@)),
            creation.output_byte_limit == self.output_byte_limit,
    {
        match self.step {
            CreateStep::Register { .. } => TerminalCreation {
                output_byte_limit: self.output_byte_limit,
                step: CreateStep::Done(Err(lock_poisoned(Lock::Registry))),
            },
            _ => self,
        }
    }
}

impl TerminalState {
    /// Takes in what a reader of the command's output got: bytes, none at the end of the stream,
    /// or an error (`None`). Tells whether to read on.
    pub fn on_read(&mut self, read: Option<&[u8]>) -> (more: bool)
        ensures
            more == (read matches Some(bytes) && bytes@.len() > 0),
            final(self)@ == (match read {
                Some(bytes) => if bytes@.len() > 0 {
                    old(self)@.written(utf8_lossy(bytes@))
                } else {
                    old(self)@
                },
                None => old(self)@,
            }),
            read matches Some(bytes) ==> bytes@.len() > 0 && valid_utf8(bytes@) ==> final(self)@
                == old(self)@.written(decode_utf8(bytes@)),
            final(self).exit_status == old(self).exit_status,
            final(self).output_byte_limit == old(self).output_byte_limit,
            !more ==> final(self).output@ == old(self).output@ && final(self).truncated
                == old(self).truncated,
            more ==> ({
                let all = old(self).output@ + utf8_lossy(read->0@);
                let kept = final(self).output@;
                match old(self).output_byte_limit {
                    None => kept == all && final(self).truncated == old(self).truncated,
                    Some(limit) => {
                        let bound = limit as usize;
                        &&& encode_utf8(kept).len() <= bound
                        &&& encode_utf8(all).len() <= bound ==> kept == all && final(self).truncated
                            == old(self).truncated
                        &&& encode_utf8(all).len() > bound ==> final(self).truncated && (exists|
                            n: int,
                        |
                            #![trigger all.skip(n)]
                            0 <= n <= all.len() && kept == all.skip(n) && (forall|m: int|
                                0 <= m < n ==> encode_utf8(#[trigger] all.skip(m)).len() > bound))
                    },
                }
            }),
    {
        match read {
            Some(bytes) => {
                if bytes.len() == 0 {
                    return false;
                }
                self.append_terminal_output(bytes);
                true
            },
            None => false,
        }
    }
}

/// A request that names a directory has its command start there, whatever the default is; one that
/// names none has it start in the default.
pub proof fn law_named_directory_is_the_start(
    dir: Vec<u8>,
    default_cwd: Seq<u8>,
    other_default: Seq<u8>,
)
    ensures
        start_directory(Some(dir), default_cwd) == dir@,
        start_directory(Some(dir), default_cwd) == start_directory(Some(dir), other_default),
        start_directory(None, default_cwd) == default_cwd,
{
}

/// A stream is read exactly when it is open, once, and the standard output before the standard
/// error.
pub proof fn law_open_streams_are_read(stdout: bool, stderr: bool)
    ensures
        ({
            let readers = open_streams(stdout, stderr);
            &&& readers.contains(OutputStream::Stdout) == stdout
            &&& readers.contains(OutputStream::Stderr) == stderr
            &&& readers.len() == (if stdout {
                1int
            } else {
                0
            }) + (if stderr {
                1int
            } else {
                0
            })
            &&& stdout ==> readers[0] is Stdout
        }),
{
    let readers = open_streams(stdout, stderr);
    if stdout {
        assert(readers[0] is Stdout);
    }
    if stderr {
        assert(readers[readers.len() - 1] is Stderr);
    }
}

/// Different UUIDs give different terminals, and each id is the UUID behind `terminal-`.
pub proof fn law_ids_differ_as_uuids_do(one: Seq<char>, other: Seq<char>)
    ensures
        terminal_id(one) == "terminal-"@ + one,
        terminal_id(one) == terminal_id(other) ==> one == other,
{
    let n = "terminal-"@.len() as int;
    assert(("terminal-"@ + one).skip(n) =~= one);
    assert(("terminal-"@ + other).skip(n) =~= other);
}

/// The text of a random UUID has 36 characters: hyphens at four places, the version and the variant
/// at theirs, and lower-case hexadecimal digits everywhere else.
pub proof fn law_random_uuids_have_their_form(text: Seq<char>, i: int)
    requires
        is_random_uuid(text),
        0 <= i < 36,
    ensures
        text.len() == 36,
        text[14] == '4',
        text[19] == '8' || text[19] == '9' || text[19] == 'a' || text[19] == 'b',
        (i == 8 || i == 13 || i == 18 || i == 23) ==> text[i] == '-',
        (i != 8 && i != 13 && i != 18 && i != 23) ==> ('0' <= text[i] <= '9' || 'a' <= text[i]
            <= 'f'),
{
    assert(i != 8 && i != 13 && i != 18 && i != 23 ==> is_hex_digit(text[i]));
}

} // verus!
