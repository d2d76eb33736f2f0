//! The command model: one program invocation with its optional redirection
//! targets, and the shapes that a parsed line can take.
use vstd::prelude::*;

use crate::text::views;

verus! {

/// One program invocation.
#[derive(Debug)]
pub struct Command {
    pub program: String,
    pub args: Vec<String>,
    /// File that standard input is read from (`< path`).
    pub input_file: Option<String>,
    /// File that standard output is written to (`> path`).
    pub output_file: Option<String>,
}

/// The mathematical value of a [`Command`].
pub struct CommandView {
    pub program: Seq<char>,
    pub args: Seq<Seq<char>>,
    pub input_file: Option<Seq<char>>,
    pub output_file: Option<Seq<char>>,
}

/// The character view of an optional string.
pub open spec fn opt_view(o: Option<String>) -> Option<Seq<char>> {
    match o {
        Some(s) => Some(s@),
        None => None,
    }
}

impl View for Command {
    type V = CommandView;

    open spec fn view(&self) -> CommandView {
        CommandView {
            program: self.program@,
            args: views(self.args@),
            input_file: opt_view(self.input_file),
            output_file: opt_view(self.output_file),
        }
    }
}

/// The views of a sequence of commands.
pub open spec fn command_views(v: Seq<Command>) -> Seq<CommandView> {
    v.map_values(|c: Command| c@)
}

/// What a non-empty line asks to run.
#[derive(Debug)]
pub enum InputType {
    /// One command, no redirection.
    SingleCommand(Command),
    /// Two or more commands, each one's output feeding the next one's input.
    Pipe(Vec<Command>),
    /// One command reading from a file.
    InputRedirect(Command, String),
    /// One command writing to a file.
    OutputRedirect(Command, String),
    /// One command reading from a file and writing to another.
    BiRedirect(Command, String, String),
}

/// The mathematical value of an [`InputType`].
pub enum InputTypeView {
    SingleCommand(CommandView),
    Pipe(Seq<CommandView>),
    InputRedirect(CommandView, Seq<char>),
    OutputRedirect(CommandView, Seq<char>),
    BiRedirect(CommandView, Seq<char>, Seq<char>),
}

impl View for InputType {
    type V = InputTypeView;

    open spec fn view(&self) -> InputTypeView {
        match self {
            InputType::SingleCommand(c) => InputTypeView::SingleCommand(c@),
            InputType::Pipe(cs) => InputTypeView::Pipe(command_views(cs@)),
            InputType::InputRedirect(c, i) => InputTypeView::InputRedirect(c@, i@),
            InputType::OutputRedirect(c, o) => InputTypeView::OutputRedirect(c@, o@),
            InputType::BiRedirect(c, i, o) => InputTypeView::BiRedirect(c@, i@, o@),
        }
    }
}

/// Why a line could not be parsed.
#[derive(Debug, Clone, Copy, PartialEq, Eq, Structural)]
pub enum ParseError {
    /// A `<` with no path after it.
    MissingInputPath,
    /// A `>` with no path after it.
    MissingOutputPath,
    /// A segment made of redirections only, with no program name.
    MissingProgram,
}

} // verus!
