//! The records that the terminal managers keep and hand out.

use vstd::prelude::*;

verus! {

/// One line that a shell wrote to its pseudo-terminal.
#[derive(Debug)]
pub struct TerminalOutput {
    pub session_id: String,
    pub content: String,
    pub is_error: bool,
    pub timestamp: u64,
}

/// Mathematical value of a [`TerminalOutput`].
pub struct TerminalOutputView {
    pub session_id: Seq<char>,
    pub content: Seq<char>,
    pub is_error: bool,
    pub timestamp: u64,
}

impl View for TerminalOutput {
    type V = TerminalOutputView;

    open spec fn view(&self) -> TerminalOutputView {
        TerminalOutputView {
            session_id: self.session_id@,
            content: self.content@,
            is_error: self.is_error,
            timestamp: self.timestamp,
        }
    }
}

/// The record of a line read from the pseudo-terminal of `session_id` at
/// `timestamp`. Standard output and standard error are not told apart by a
/// pseudo-terminal, so the record never marks an error.
pub open spec fn line_record(
    session_id: Seq<char>,
    content: Seq<char>,
    timestamp: u64,
) -> TerminalOutputView {
    TerminalOutputView { session_id, content, is_error: false, timestamp }
}

impl TerminalOutput {
    /// Records one line of output of a session.
    pub fn line(session_id: &str, content: String, timestamp: u64) -> (record: TerminalOutput)
        ensures
            record@ == line_record(session_id@, content@, timestamp),
    {
        TerminalOutput { session_id: session_id.to_owned(), content, is_error: false, timestamp }
    }
}

impl Clone for TerminalOutput {
    fn clone(&self) -> (copy: Self)
        ensures
            copy@ == self@,
    {
        TerminalOutput {
            session_id: self.session_id.clone(),
            content: self.content.clone(),
            is_error: self.is_error,
            timestamp: self.timestamp,
        }
    }
}

/// Where a command stands.
#[derive(Clone, Copy, Debug, PartialEq, Eq, Structural)]
pub enum CommandStatus {
    Running,
    Completed,
    Failed,
}

/// The tracked record of one submitted command.
#[derive(Debug)]
pub struct CommandBlock {
    pub id: String,
    pub session_id: String,
    pub command: String,
    pub output: Vec<TerminalOutput>,
    pub exit_code: Option<i32>,
    pub start_time: u64,
    pub end_time: Option<u64>,
    pub status: CommandStatus,
}

/// Mathematical value of a [`CommandBlock`].
pub struct CommandBlockView {
    pub id: Seq<char>,
    pub session_id: Seq<char>,
    pub command: Seq<char>,
    pub output: Seq<TerminalOutputView>,
    pub exit_code: Option<i32>,
    pub start_time: u64,
    pub end_time: Option<u64>,
    pub status: CommandStatus,
}

/// The values of a sequence of output records.
pub open spec fn output_views(records: Seq<TerminalOutput>) -> Seq<TerminalOutputView> {
    Seq::new(records.len(), |i: int| records[i]@)
}

impl View for CommandBlock {
    type V = CommandBlockView;

    open spec fn view(&self) -> CommandBlockView {
        CommandBlockView {
            id: self.id@,
            session_id: self.session_id@,
            command: self.command@,
            output: output_views(self.output@),
            exit_code: self.exit_code,
            start_time: self.start_time,
            end_time: self.end_time,
            status: self.status,
        }
    }
}

/// The block of a command that was just submitted: running, started at
/// `start_time`, with no output, exit code or end time yet.
pub open spec fn started_block(
    id: Seq<char>,
    session_id: Seq<char>,
    command: Seq<char>,
    start_time: u64,
) -> CommandBlockView {
    CommandBlockView {
        id,
        session_id,
        command,
        output: Seq::empty(),
        exit_code: None,
        start_time,
        end_time: None,
        status: CommandStatus::Running,
    }
}

impl CommandBlock {
    /// Opens the record of a command submitted at `start_time`.
    pub fn started(id: String, session_id: &str, command: &str, start_time: u64) -> (block:
        CommandBlock)
        ensures
            block@ == started_block(id@, session_id@, command@, start_time),
    {
        let block = CommandBlock {
            id,
            session_id: session_id.to_owned(),
            command: command.to_owned(),
            output: Vec::new(),
            exit_code: None,
            start_time,
            end_time: None,
            status: CommandStatus::Running,
        };
        assert(block@.output =~= Seq::empty());
        block
    }
}

impl Clone for CommandBlock {
    fn clone(&self) -> (copy: Self)
        ensures
            copy@ == self@,
    {
        let mut output: Vec<TerminalOutput> = Vec::new();
        let mut i: usize = 0;
        while i < self.output.len()
            invariant
                i <= self.output.len(),
                output@.len() == i,
                forall|k: int| 0 <= k < i ==> output@[k]@ == self.output@[k]@,
            decreases self.output.len() - i,
        {
            output.push(self.output[i].clone());
            i += 1;
        }
        let copy = CommandBlock {
            id: self.id.clone(),
            session_id: self.session_id.clone(),
            command: self.command.clone(),
            output,
            exit_code: self.exit_code,
            start_time: self.start_time,
            end_time: self.end_time,
            status: self.status,
        };
        assert(copy@.output =~= self@.output);
        copy
    }
}

/// The values of a sequence of command blocks.
pub open spec fn block_views(blocks: Seq<CommandBlock>) -> Seq<CommandBlockView> {
    Seq::new(blocks.len(), |i: int| blocks[i]@)
}

/// A logical, user-facing terminal.
#[derive(Debug)]
pub struct TerminalSession {
    pub id: String,
    pub name: String,
    pub active: bool,
    pub current_directory: String,
    pub commands: Vec<CommandBlock>,
}

/// Mathematical value of a [`TerminalSession`].
pub struct TerminalSessionView {
    pub id: Seq<char>,
    pub name: Seq<char>,
    pub active: bool,
    pub current_directory: Seq<char>,
    pub commands: Seq<CommandBlockView>,
}

impl View for TerminalSession {
    type V = TerminalSessionView;

    open spec fn view(&self) -> TerminalSessionView {
        TerminalSessionView {
            id: self.id@,
            name: self.name@,
            active: self.active,
            current_directory: self.current_directory@,
            commands: block_views(self.commands@),
        }
    }
}

impl Clone for TerminalSession {
    fn clone(&self) -> (copy: Self)
        ensures
            copy@ == self@,
    {
        let mut commands: Vec<CommandBlock> = Vec::new();
        let mut i: usize = 0;
        while i < self.commands.len()
            invariant
                i <= self.commands.len(),
                commands@.len() == i,
                forall|k: int| 0 <= k < i ==> commands@[k]@ == self.commands@[k]@,
            decreases self.commands.len() - i,
        {
            commands.push(self.commands[i].clone());
            i += 1;
        }
        let copy = TerminalSession {
            id: self.id.clone(),
            name: self.name.clone(),
            active: self.active,
            current_directory: self.current_directory.clone(),
            commands,
        };
        assert(copy@.commands =~= self@.commands);
        copy
    }
}

} // verus!
