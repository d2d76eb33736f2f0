//! What one process must do before it replaces its image with a command:
//! where its standard input and output come from, and the argument vector.
use vstd::prelude::*;

use crate::command::{opt_view, Command};
use crate::text::views;

verus! {

/// Where a standard stream of the launched program is connected.
#[derive(Debug)]
pub enum StreamSource {
    /// Left as the launching process has it.
    Inherit,
    /// An open descriptor (a pipe end), duplicated onto the stream and then
    /// closed under its own number.
    Descriptor(i32),
    /// A file, opened (for output: created or truncated) and duplicated onto
    /// the stream.
    File(String),
}

/// The mathematical value of a [`StreamSource`].
pub enum SourceView {
    Inherit,
    Descriptor(i32),
    File(Seq<char>),
}

impl View for StreamSource {
    type V = SourceView;

    open spec fn view(&self) -> SourceView {
        match self {
            StreamSource::Inherit => SourceView::Inherit,
            StreamSource::Descriptor(fd) => SourceView::Descriptor(*fd),
            StreamSource::File(p) => SourceView::File(p@),
        }
    }
}

/// How to launch one command.
#[derive(Debug)]
pub struct LaunchPlan {
    /// The argument vector; its first entry is the program itself.
    pub argv: Vec<String>,
    pub stdin: StreamSource,
    pub stdout: StreamSource,
}

/// The source of a stream: a descriptor given by the caller wins over the
/// command's own file, and with neither the stream is inherited.
pub open spec fn chosen_source(over: Option<i32>, file: Option<Seq<char>>) -> SourceView {
    match over {
        Some(fd) => SourceView::Descriptor(fd),
        None => match file {
            Some(p) => SourceView::File(p),
            None => SourceView::Inherit,
        },
    }
}

/// The argument vector of a command: the program, then its arguments.
pub open spec fn argv_of(program: Seq<char>, args: Seq<Seq<char>>) -> Seq<Seq<char>> {
    seq![program] + args
}

fn source_for(over: Option<i32>, file: &Option<String>) -> (r: StreamSource)
    ensures
        r@ == chosen_source(over, opt_view(*file)),
{
    match over {
        Some(fd) => StreamSource::Descriptor(fd),
        None => match file {
            Some(p) => StreamSource::File(p.clone()),
            None => StreamSource::Inherit,
        },
    }
}

/// Plans the launch of `cmd`. A descriptor override (a pipe end) takes
/// priority over the command's own redirection file for the same stream.
pub fn launch_plan(cmd: &Command, input_override: Option<i32>, output_override: Option<i32>) -> (r:
    LaunchPlan)
    ensures
        views(r.argv@) == argv_of(cmd.program@, views(cmd.args@)),
        r.stdin@ == chosen_source(input_override, opt_view(cmd.input_file)),
        r.stdout@ == chosen_source(output_override, opt_view(cmd.output_file)),
{
    let mut argv: Vec<String> = Vec::new();
    argv.push(cmd.program.clone());
    for i in 0..cmd.args.len()
        invariant
            views(argv@) == argv_of(cmd.program@, views(cmd.args@.take(i as int))),
    {
        let ghost before = views(argv@);
        argv.push(cmd.args[i].clone());
        proof {
            assert(cmd.args@.take(i + 1) =~= cmd.args@.take(i as int).push(cmd.args@[i as int]));
            assert(views(argv@) =~= before.push(cmd.args@[i as int]@));
            assert(views(cmd.args@.take(i + 1)) =~= views(cmd.args@.take(i as int)).push(
                cmd.args@[i as int]@,
            ));
            assert(argv_of(cmd.program@, views(cmd.args@.take(i + 1))) =~= argv_of(
                cmd.program@,
                views(cmd.args@.take(i as int)),
            ).push(cmd.args@[i as int]@));
        }
    }
    proof {
        assert(cmd.args@.take(cmd.args@.len() as int) =~= cmd.args@);
    }
    LaunchPlan {
        argv,
        stdin: source_for(input_override, &cmd.input_file),
        stdout: source_for(output_override, &cmd.output_file),
    }
}

} // verus!
