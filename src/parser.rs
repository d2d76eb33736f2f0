//! Parsing a line into the command, redirected command or pipeline it
//! describes.
use vstd::prelude::*;

use crate::command::{command_views, opt_view, Command, CommandView, InputType, InputTypeView, ParseError};
use crate::text::{
    lemma_split_bars_no_bar, lemma_tokens_words_nonempty, split_bars, split_segments, token_is,
    tokenize, tokens, views,
};

verus! {

/// The command before any word of its segment has been read.
pub open spec fn empty_command() -> CommandView {
    CommandView { program: seq![], args: seq![], input_file: None, output_file: None }
}

/// Reads the words `toks[i..]` left to right into `acc`: `<` and `>` take
/// the next word as the input or output path (a later one replaces an
/// earlier one), the first other word is the program, the rest are its
/// arguments in order.
pub open spec fn walk(toks: Seq<Seq<char>>, i: int, acc: CommandView) -> Result<
    CommandView,
    ParseError,
>
    decreases toks.len() - i,
{
    if i >= toks.len() {
        Ok(acc)
    } else if toks[i] == seq!['<'] {
        if i + 1 < toks.len() {
            walk(toks, i + 2, CommandView { input_file: Some(toks[i + 1]), ..acc })
        } else {
            Err(ParseError::MissingInputPath)
        }
    } else if toks[i] == seq!['>'] {
        if i + 1 < toks.len() {
            walk(toks, i + 2, CommandView { output_file: Some(toks[i + 1]), ..acc })
        } else {
            Err(ParseError::MissingOutputPath)
        }
    } else if acc.program.len() == 0 {
        walk(toks, i + 1, CommandView { program: toks[i], ..acc })
    } else {
        walk(toks, i + 1, CommandView { args: acc.args.push(toks[i]), ..acc })
    }
}

/// The command that the words of one segment describe.
pub open spec fn command_of_tokens(toks: Seq<Seq<char>>) -> Result<CommandView, ParseError> {
    match walk(toks, 0, empty_command()) {
        Ok(c) => if c.program.len() == 0 {
            Err(ParseError::MissingProgram)
        } else {
            Ok(c)
        },
        Err(e) => Err(e),
    }
}

/// The command of one segment of text; a blank segment holds none.
pub open spec fn segment_command(seg: Seq<char>) -> Result<Option<CommandView>, ParseError> {
    if tokens(seg).len() == 0 {
        Ok(None)
    } else {
        match command_of_tokens(tokens(seg)) {
            Ok(c) => Ok(Some(c)),
            Err(e) => Err(e),
        }
    }
}

/// The word lists of the non-blank segments, in order.
pub open spec fn stages_of(segs: Seq<Seq<char>>) -> Seq<Seq<Seq<char>>>
    decreases segs.len(),
{
    if segs.len() == 0 {
        seq![]
    } else {
        let prev = stages_of(segs.drop_last());
        let t = tokens(segs.last());
        if t.len() > 0 {
            prev.push(t)
        } else {
            prev
        }
    }
}

/// The stages of a line: its `|`-separated segments that are not blank,
/// each as its list of words.
pub open spec fn stages(line: Seq<char>) -> Seq<Seq<Seq<char>>> {
    stages_of(split_bars(line))
}

/// The commands of a list of stages, or the error of the first stage that
/// does not parse.
pub open spec fn commands_of(st: Seq<Seq<Seq<char>>>) -> Result<Seq<CommandView>, ParseError>
    decreases st.len(),
{
    if st.len() == 0 {
        Ok(seq![])
    } else {
        match commands_of(st.drop_last()) {
            Err(e) => Err(e),
            Ok(cs) => match command_of_tokens(st.last()) {
                Err(e) => Err(e),
                Ok(c) => Ok(cs.push(c)),
            },
        }
    }
}

/// The shape of a lone command, by the redirections it carries.
pub open spec fn shape(c: CommandView) -> InputTypeView {
    match (c.input_file, c.output_file) {
        (Some(i), None) => InputTypeView::InputRedirect(c, i),
        (None, Some(o)) => InputTypeView::OutputRedirect(c, o),
        (Some(i), Some(o)) => InputTypeView::BiRedirect(c, i, o),
        (None, None) => InputTypeView::SingleCommand(c),
    }
}

/// What a line asks to run: nothing for a blank line, a lone command shaped
/// by its redirections for one stage, a pipeline for two or more.
pub open spec fn parse_line(line: Seq<char>) -> Result<Option<InputTypeView>, ParseError> {
    let st = stages(line);
    if st.len() == 0 {
        Ok(None)
    } else if st.len() == 1 {
        match command_of_tokens(st[0]) {
            Ok(c) => Ok(Some(shape(c))),
            Err(e) => Err(e),
        }
    } else {
        match commands_of(st) {
            Ok(cs) => Ok(Some(InputTypeView::Pipe(cs))),
            Err(e) => Err(e),
        }
    }
}

/// The view of a parse result.
pub open spec fn command_result(r: Result<Command, ParseError>) -> Result<CommandView, ParseError> {
    match r {
        Ok(c) => Ok(c@),
        Err(e) => Err(e),
    }
}

/// The view of an optional-command parse result.
pub open spec fn segment_result(r: Result<Option<Command>, ParseError>) -> Result<
    Option<CommandView>,
    ParseError,
> {
    match r {
        Ok(Some(c)) => Ok(Some(c@)),
        Ok(None) => Ok(None),
        Err(e) => Err(e),
    }
}

/// The view of a line parse result.
pub open spec fn line_result(r: Result<Option<InputType>, ParseError>) -> Result<
    Option<InputTypeView>,
    ParseError,
> {
    match r {
        Ok(Some(p)) => Ok(Some(p@)),
        Ok(None) => Ok(None),
        Err(e) => Err(e),
    }
}

/// Reads a list of words into a command: `<` and `>` take the next word
/// as the input or output path, the first other word is the program and the
/// rest are its arguments.
pub fn parse_tokens(toks: &Vec<String>) -> (r: Result<Command, ParseError>)
    ensures
        command_result(r) == command_of_tokens(views(toks@)),
{
    let ghost v = views(toks@);
    let mut program = String::new();
    let mut args: Vec<String> = Vec::new();
    let mut input_file: Option<String> = None;
    let mut output_file: Option<String> = None;
    let mut i: usize = 0;
    assert(views(args@) =~= seq![]);
    while i < toks.len()
        invariant
            v == views(toks@),
            i <= toks.len(),
            walk(
                v,
                i as int,
                CommandView {
                    program: program@,
                    args: views(args@),
                    input_file: opt_view(input_file),
                    output_file: opt_view(output_file),
                },
            ) == walk(v, 0, empty_command()),
        decreases toks.len() - i,
    {
        assert(v[i as int] == toks@[i as int]@);
        if token_is(toks[i].as_str(), '<') {
            if i + 1 < toks.len() {
                assert(v[i + 1] == toks@[i + 1]@);
                input_file = Some(toks[i + 1].clone());
                i = i + 2;
            } else {
                return Err(ParseError::MissingInputPath);
            }
        } else if token_is(toks[i].as_str(), '>') {
            if i + 1 < toks.len() {
                assert(v[i + 1] == toks@[i + 1]@);
                output_file = Some(toks[i + 1].clone());
                i = i + 2;
            } else {
                return Err(ParseError::MissingOutputPath);
            }
        } else if program.as_str().is_empty() {
            program = toks[i].clone();
            i = i + 1;
        } else {
            let ghost old_args = views(args@);
            args.push(toks[i].clone());
            assert(views(args@) =~= old_args.push(v[i as int]));
            i = i + 1;
        }
    }
    if program.as_str().is_empty() {
        Err(ParseError::MissingProgram)
    } else {
        Ok(Command { program, args, input_file, output_file })
    }
}

/// Parses one segment (no `|` in it) into the command it describes, with
/// its redirections; a blank segment gives `None`.
pub fn parse_redir_command(input: &str) -> (r: Result<Option<Command>, ParseError>)
    ensures
        segment_result(r) == segment_command(input@),
{
    let toks = tokenize(input);
    if toks.len() == 0 {
        return Ok(None);
    }
    match parse_tokens(&toks) {
        Ok(c) => Ok(Some(c)),
        Err(e) => Err(e),
    }
}

/// Gives a lone command the shape that its redirections call for.
pub fn shape_of(cmd: Command) -> (r: InputType)
    ensures
        r@ == shape(cmd@),
{
    match (cmd.input_file.clone(), cmd.output_file.clone()) {
        (Some(inf), None) => InputType::InputRedirect(cmd, inf),
        (None, Some(outf)) => InputType::OutputRedirect(cmd, outf),
        (Some(inf), Some(outf)) => InputType::BiRedirect(cmd, inf, outf),
        (None, None) => InputType::SingleCommand(cmd),
    }
}

/// The word lists of the non-blank `|`-separated segments of `line`.
pub fn split_stages(line: &str) -> (r: Vec<Vec<String>>)
    ensures
        r@.map_values(|t: Vec<String>| views(t@)) == stages(line@),
{
    let segs = split_segments(line);
    let ghost sv = views(segs@);
    let mut out: Vec<Vec<String>> = Vec::new();
    for i in 0..segs.len()
        invariant
            sv == views(segs@),
            out@.map_values(|t: Vec<String>| views(t@)) == stages_of(sv.take(i as int)),
    {
        let ghost before = out@.map_values(|t: Vec<String>| views(t@));
        let toks = tokenize(segs[i].as_str());
        proof {
            assert(sv.take(i + 1).drop_last() =~= sv.take(i as int));
            assert(sv.take(i + 1).last() == segs@[i as int]@);
        }
        if toks.len() > 0 {
            out.push(toks);
            assert(out@.map_values(|t: Vec<String>| views(t@)) =~= before.push(views(out@.last()@)));
        }
    }
    assert(sv.take(segs@.len() as int) =~= sv);
    out
}

/// Parses a line: `Ok(None)` when it holds no command, the lone command
/// shaped by its redirections when it has one non-blank `|`-separated
/// segment, a pipeline of every non-blank segment's command when it has
/// more, and the first segment's error when one does not parse.
pub fn parse_input(input: &str) -> (r: Result<Option<InputType>, ParseError>)
    ensures
        line_result(r) == parse_line(input@),
{
    let st = split_stages(input);
    let ghost sv = st@.map_values(|t: Vec<String>| views(t@));
    if st.len() == 0 {
        return Ok(None);
    }
    if st.len() == 1 {
        return match parse_tokens(&st[0]) {
            Ok(c) => Ok(Some(shape_of(c))),
            Err(e) => Err(e),
        };
    }
    let mut commands: Vec<Command> = Vec::new();
    assert(sv.take(0) =~= seq![]);
    assert(command_views(commands@) =~= seq![]);
    for i in 0..st.len()
        invariant
            sv == st@.map_values(|t: Vec<String>| views(t@)),
            sv == stages(input@),
            commands_of(sv.take(i as int)) == Ok::<Seq<CommandView>, ParseError>(
                command_views(commands@),
            ),
    {
        proof {
            assert(sv.take(i + 1).drop_last() =~= sv.take(i as int));
            assert(sv.take(i + 1).last() == views(st@[i as int]@));
        }
        match parse_tokens(&st[i]) {
            Ok(c) => {
                let ghost before = command_views(commands@);
                commands.push(c);
                assert(command_views(commands@) =~= before.push(c@));
            },
            Err(e) => {
                proof {
                    assert(commands_of(sv.take(i + 1)) == Err::<Seq<CommandView>, ParseError>(e));
                    lemma_commands_of_error(sv, i as int + 1);
                }
                return Err(e);
            },
        }
    }
    assert(sv.take(st@.len() as int) =~= sv);
    Ok(Some(InputType::Pipe(commands)))
}

/// Once a prefix of the stages fails to parse, so does the whole list, with
/// the same error.
pub proof fn lemma_commands_of_error(st: Seq<Seq<Seq<char>>>, k: int)
    requires
        0 <= k <= st.len(),
        commands_of(st.take(k)) is Err,
    ensures
        commands_of(st) == commands_of(st.take(k)),
    decreases st.len() - k,
{
    if k < st.len() {
        assert(st.take(k + 1).drop_last() =~= st.take(k));
        lemma_commands_of_error(st, k + 1);
    } else {
        assert(st.take(k) =~= st);
    }
}

/// Whether `w` is one of the redirection operators `<` and `>`.
pub open spec fn is_operator(w: Seq<char>) -> bool {
    w == seq!['<'] || w == seq!['>']
}

/// With a program already read and no operator left among the words, the
/// remaining words are the arguments, in order.
pub proof fn lemma_walk_plain(toks: Seq<Seq<char>>, i: int, acc: CommandView)
    requires
        0 <= i <= toks.len(),
        acc.program.len() > 0,
        forall|k: int| 0 <= k < toks.len() ==> !is_operator(#[trigger] toks[k]),
    ensures
        walk(toks, i, acc) == Ok::<CommandView, ParseError>(
            CommandView { args: acc.args + toks.subrange(i, toks.len() as int), ..acc },
        ),
    decreases toks.len() - i,
{
    if i < toks.len() {
        assert(!is_operator(toks[i]));
        let next = CommandView { args: acc.args.push(toks[i]), ..acc };
        lemma_walk_plain(toks, i + 1, next);
        assert(acc.args.push(toks[i]) + toks.subrange(i + 1, toks.len() as int) =~= acc.args
            + toks.subrange(i, toks.len() as int));
    } else {
        assert(acc.args + toks.subrange(i, toks.len() as int) =~= acc.args);
    }
}

/// A line with at least one word, no `|` and no word that is `<` or `>` is
/// a single command: its first word is the program and the others are the
/// arguments, in their order on the line.
pub proof fn lemma_plain_line_is_single(line: Seq<char>)
    requires
        !line.contains('|'),
        tokens(line).len() > 0,
        forall|k: int| 0 <= k < tokens(line).len() ==> !is_operator(#[trigger] tokens(line)[k]),
    ensures
        parse_line(line) == Ok::<Option<InputTypeView>, ParseError>(
            Some(
                InputTypeView::SingleCommand(
                    CommandView {
                        program: tokens(line)[0],
                        args: tokens(line).drop_first(),
                        input_file: None,
                        output_file: None,
                    },
                ),
            ),
        ),
{
    let toks = tokens(line);
    lemma_split_bars_no_bar(line);
    let segs = split_bars(line);
    assert(segs.drop_last() =~= seq![]);
    assert(segs.last() == line);
    assert(stages_of(segs.drop_last()) =~= seq![]);
    assert(stages(line) =~= seq![toks]);
    lemma_tokens_words_nonempty(line);
    assert(toks[0].len() > 0);
    assert(!is_operator(toks[0]));
    let first = CommandView { program: toks[0], ..empty_command() };
    lemma_walk_plain(toks, 1, first);
    assert(seq![] + toks.subrange(1, toks.len() as int) =~= toks.drop_first());
}

} // verus!
