//! The Linux adapter: the X11 selection by way of the `xclip` helper.
//!
//! The adapter says which helper invocation an operation needs and what
//! the run of that invocation amounts to; running it is left to the caller.

use crate::encoding::{lemma_utf8_lossy_reads_back, string_from_utf8_lossy, utf8_lossy};
use crate::error::{absent, list_result, result_model, ClipboardError, ErrorKind, ErrorModel};
use crate::content::optional_text;
use crate::resolver::{file_scheme, file_uri_of, file_uris, resolution, resolve_paths,
    AttemptModel, PathAttempt, ResolvePolicy};
use crate::text::{chars_of, is_whitespace, join, join_strings, lines_of, push_signed_decimal,
    push_str, signed_decimal, string_of, texts, trim, trim_range, views};
use vstd::prelude::*;
use vstd::string::*;
use vstd::utf8::encode_utf8;

verus! {

/// What a finished run of the selection helper left behind.
#[derive(Debug, PartialEq, Eq)]
pub struct HelperOutput {
    /// Whether the helper exited with status zero.
    pub success: bool,
    /// The exit code, where the helper exited with one.
    pub exit_code: Option<i32>,
    /// What the helper wrote to its standard output.
    pub stdout: Vec<u8>,
    /// What the helper wrote to its standard error.
    pub stderr: Vec<u8>,
}

/// How a run of the selection helper ended.
#[derive(Debug, PartialEq, Eq)]
pub enum HelperRun {
    /// The helper ran to its end.
    Finished(HelperOutput),
    /// The helper could not be run; holds the system's error text.
    NotStarted(String),
}

/// One invocation of the selection helper.
#[derive(Debug, PartialEq, Eq)]
pub struct HelperCommand {
    /// The program to run.
    pub program: String,
    /// Its arguments.
    pub args: Vec<String>,
    /// What to feed to its standard input, if anything.
    pub input: Option<Vec<u8>>,
}

/// What a finished run says in contracts.
pub struct OutputModel {
    pub success: bool,
    pub exit_code: Option<i32>,
    pub stdout: Seq<u8>,
    pub stderr: Seq<u8>,
}

/// What a run says in contracts.
pub enum RunModel {
    Finished(OutputModel),
    NotStarted(Seq<char>),
}

/// What a helper invocation says in contracts.
pub struct CommandModel {
    pub program: Seq<char>,
    pub args: Seq<Seq<char>>,
    pub input: Option<Seq<u8>>,
}

impl View for HelperOutput {
    type V = OutputModel;

    open spec fn view(&self) -> OutputModel {
        OutputModel {
            success: self.success,
            exit_code: self.exit_code,
            stdout: self.stdout@,
            stderr: self.stderr@,
        }
    }
}

impl View for HelperRun {
    type V = RunModel;

    open spec fn view(&self) -> RunModel {
        match self {
            HelperRun::Finished(output) => RunModel::Finished(output@),
            HelperRun::NotStarted(reason) => RunModel::NotStarted(reason@),
        }
    }
}

impl View for HelperCommand {
    type V = CommandModel;

    open spec fn view(&self) -> CommandModel {
        CommandModel {
            program: self.program@,
            args: texts(self.args@),
            input: match self.input {
                Some(bytes) => Some(bytes@),
                None => None,
            },
        }
    }
}

/// The arguments that select the clipboard for writing a URI list.
pub open spec fn write_args() -> Seq<Seq<char>> {
    seq!["-selection"@, "clipboard"@, "-t"@, "text/uri-list"@]
}

/// The arguments that print the clipboard's default content.
pub open spec fn read_args() -> Seq<Seq<char>> {
    seq!["-selection"@, "clipboard"@, "-o"@]
}

/// The arguments that print the clipboard's URI list.
pub open spec fn read_uri_list_args() -> Seq<Seq<char>> {
    seq!["-selection"@, "clipboard"@, "-o"@, "-t"@, "text/uri-list"@]
}

/// The text block that carries a list of paths: their `file://` URIs, one
/// per line.
pub open spec fn uri_block(paths: Seq<Seq<char>>) -> Seq<char> {
    join(paths.map_values(|path: Seq<char>| file_uri_of(path)), "\n"@)
}

/// The helper invocation that writes the given canonical paths.
pub open spec fn write_command(paths: Seq<Seq<char>>) -> CommandModel {
    CommandModel {
        program: "xclip"@,
        args: write_args(),
        input: Some(encode_utf8(uri_block(paths))),
    }
}

/// What a write of the given paths asks for.
///
/// A rejected input is the resolver's error. An empty input asks for
/// nothing: the write succeeds and the clipboard is left as it is. Any
/// other input asks for one run of the helper that is fed the URI block of
/// the resolved paths.
pub open spec fn write_request(attempts: Seq<AttemptModel>, policy: ResolvePolicy) -> Result<
    Option<CommandModel>,
    ErrorModel,
> {
    match resolution(attempts, policy) {
        Err(e) => Err(e),
        Ok(paths) => if paths.len() == 0 {
            Ok(None)
        } else {
            Ok(Some(write_command(paths)))
        },
    }
}

/// What the outcome of preparing a write says in contracts.
pub open spec fn request_model(result: Result<Option<HelperCommand>, ClipboardError>) -> Result<
    Option<CommandModel>,
    ErrorModel,
> {
    match result {
        Ok(Some(command)) => Ok(Some(command@)),
        Ok(None) => Ok(None),
        Err(e) => Err(e@),
    }
}

/// The helper with the given arguments and input.
fn helper(args: Vec<String>, input: Option<Vec<u8>>) -> (command: HelperCommand)
    ensures
        command@ == (CommandModel {
            program: "xclip"@,
            args: texts(args@),
            input: match input {
                Some(bytes) => Some(bytes@),
                None => None,
            },
        }),
{
    HelperCommand { program: String::from_str("xclip"), args, input }
}

fn push_arg(args: &mut Vec<String>, arg: &str)
    ensures
        texts(final(args)@) == texts(old(args)@).push(arg@),
{
    args.push(String::from_str(arg));
}

fn selection_args() -> (args: Vec<String>)
    ensures
        texts(args@) == seq!["-selection"@, "clipboard"@],
{
    let mut args: Vec<String> = Vec::new();
    push_arg(&mut args, "-selection");
    push_arg(&mut args, "clipboard");
    args
}

/// Prepares the write of a list of paths, each given with the outcome of
/// resolving it: the helper invocation to run, or `None` where there is
/// nothing to write.
pub fn write_clipboard_file_paths(attempts: &Vec<PathAttempt>, policy: ResolvePolicy) -> (r:
    Result<Option<HelperCommand>, ClipboardError>)
    ensures
        request_model(r) == write_request(views(attempts@), policy),
        attempts@.len() == 0 ==> r == Ok::<Option<HelperCommand>, ClipboardError>(None),
{
    match resolve_paths(attempts, policy) {
        Err(e) => Err(e),
        Ok(paths) => {
            if paths.len() == 0 {
                Ok(None)
            } else {
                let uris = file_uris(&paths);
                let block = join_strings(&uris, "\n");
                let mut args = selection_args();
                push_arg(&mut args, "-t");
                push_arg(&mut args, "text/uri-list");
                assert(texts(args@) =~= write_args());
                Ok(Some(helper(args, Some(block.as_str().as_bytes_vec()))))
            }
        },
    }
}

/// How an exit code is shown in a reason.
pub open spec fn exit_code_text(code: Option<i32>) -> Seq<char> {
    match code {
        Some(c) => "Some("@ + signed_decimal(c as int) + ")"@,
        None => "None"@,
    }
}

/// What a finished write amounts to: success where the helper exited with
/// status zero, else a platform failure that names the exit code or the
/// reason why the helper did not run.
pub open spec fn write_outcome(run: RunModel) -> Result<(), ErrorModel> {
    match run {
        RunModel::Finished(output) => if output.success {
            Ok(())
        } else {
            Err(
                ErrorModel {
                    kind: ErrorKind::PlatformIo,
                    message: "xclip command failed with exit code: "@ + exit_code_text(
                        output.exit_code,
                    ),
                },
            )
        },
        RunModel::NotStarted(reason) => Err(not_started(reason)),
    }
}

/// The failure reported when the helper could not be run.
pub open spec fn not_started(reason: Seq<char>) -> ErrorModel {
    ErrorModel {
        kind: ErrorKind::PlatformIo,
        message: "Failed to execute xclip command: "@ + reason,
    }
}

fn helper_not_started(reason: &str) -> (e: ClipboardError)
    ensures
        e@ == not_started(reason@),
{
    let mut message = String::from_str("Failed to execute xclip command: ");
    message.append(reason);
    ClipboardError::new(ErrorKind::PlatformIo, message)
}

/// Judges the run of the helper that a write asked for.
pub fn finish_write(run: &HelperRun) -> (r: Result<(), ClipboardError>)
    ensures
        result_model(r) == write_outcome(run@),
{
    match run {
        HelperRun::Finished(output) => {
            if output.success {
                Ok(())
            } else {
                let mut message: Vec<char> = Vec::new();
                push_str(&mut message, "xclip command failed with exit code: ");
                match output.exit_code {
                    Some(code) => {
                        push_str(&mut message, "Some(");
                        push_signed_decimal(&mut message, code);
                        push_str(&mut message, ")");
                    },
                    None => {
                        push_str(&mut message, "None");
                    },
                }
                assert(message@ =~= "xclip command failed with exit code: "@ + exit_code_text(
                    output.exit_code,
                ));
                Err(ClipboardError::new(ErrorKind::PlatformIo, string_of(&message)))
            }
        },
        HelperRun::NotStarted(reason) => Err(helper_not_started(reason.as_str())),
    }
}

/// The helper invocation that prints the clipboard's text.
pub fn read_text_command() -> (command: HelperCommand)
    ensures
        command@ == (CommandModel { program: "xclip"@, args: read_args(), input: None }),
{
    let mut args = selection_args();
    push_arg(&mut args, "-o");
    assert(texts(args@) =~= read_args());
    helper(args, None)
}

/// The helper invocation that prints the clipboard's raw bytes.
pub fn read_raw_command() -> (command: HelperCommand)
    ensures
        command@ == (CommandModel { program: "xclip"@, args: read_args(), input: None }),
{
    read_text_command()
}

/// The helper invocation that prints the clipboard's URI list.
pub fn read_file_paths_command() -> (command: HelperCommand)
    ensures
        command@ == (CommandModel { program: "xclip"@, args: read_uri_list_args(), input: None }),
{
    let mut args = selection_args();
    push_arg(&mut args, "-o");
    push_arg(&mut args, "-t");
    push_arg(&mut args, "text/uri-list");
    assert(texts(args@) =~= read_uri_list_args());
    helper(args, None)
}

/// What a text read amounts to.
///
/// The helper's output is the text, read as UTF-8 with replacement. No
/// output, and an exit with a status other than zero, say that the
/// clipboard holds no text; only a helper that could not be run is a
/// platform failure.
pub open spec fn text_read(run: RunModel) -> Result<Seq<char>, ErrorModel> {
    match run {
        RunModel::Finished(output) => if !output.success {
            Err(absent("Failed to read clipboard: "@ + utf8_lossy(output.stderr)))
        } else if utf8_lossy(output.stdout).len() == 0 {
            Err(absent("No text content in clipboard"@))
        } else {
            Ok(utf8_lossy(output.stdout))
        },
        RunModel::NotStarted(reason) => Err(not_started(reason)),
    }
}

fn helper_failed(prefix: &str, stderr: &Vec<u8>) -> (e: ClipboardError)
    ensures
        e@ == absent(prefix@ + utf8_lossy(stderr@)),
{
    let mut message = String::from_str(prefix);
    message.append(string_from_utf8_lossy(stderr.as_slice()).as_str());
    ClipboardError::new(ErrorKind::NotFound, message)
}

/// Reads the clipboard's text from the run of the helper that
/// `read_text_command` asked for.
pub fn read_clipboard_text(run: &HelperRun) -> (r: Result<String, ClipboardError>)
    ensures
        result_model(r) == text_read(run@),
{
    match run {
        HelperRun::Finished(output) => {
            if !output.success {
                Err(helper_failed("Failed to read clipboard: ", &output.stderr))
            } else {
                let text = string_from_utf8_lossy(output.stdout.as_slice());
                if text.as_str().unicode_len() == 0 {
                    Err(
                        ClipboardError::with_text(
                            ErrorKind::NotFound,
                            "No text content in clipboard",
                        ),
                    )
                } else {
                    Ok(text)
                }
            }
        },
        HelperRun::NotStarted(reason) => Err(helper_not_started(reason.as_str())),
    }
}

/// What a raw read amounts to: the helper's output as it stands, where
/// there is any.
pub open spec fn raw_read(run: RunModel) -> Result<Seq<u8>, ErrorModel> {
    match run {
        RunModel::Finished(output) => if !output.success {
            Err(absent("Failed to read clipboard raw data: "@ + utf8_lossy(output.stderr)))
        } else if output.stdout.len() == 0 {
            Err(absent("No data in clipboard"@))
        } else {
            Ok(output.stdout)
        },
        RunModel::NotStarted(reason) => Err(not_started(reason)),
    }
}

/// Reads the clipboard's raw bytes from the run of the helper that
/// `read_raw_command` asked for.
pub fn read_clipboard_raw(run: &HelperRun) -> (r: Result<Vec<u8>, ClipboardError>)
    ensures
        result_model(r) == raw_read(run@),
{
    match run {
        HelperRun::Finished(output) => {
            if !output.success {
                Err(helper_failed("Failed to read clipboard raw data: ", &output.stderr))
            } else if output.stdout.len() == 0 {
                Err(ClipboardError::with_text(ErrorKind::NotFound, "No data in clipboard"))
            } else {
                Ok(output.stdout.clone())
            }
        },
        HelperRun::NotStarted(reason) => Err(helper_not_started(reason.as_str())),
    }
}

/// The path that one line of a URI list names, if any: the line without
/// the white space at its ends and without the `file://` that it begins
/// with. Blank lines, comment lines (which begin with `#`) and lines that
/// do not begin with `file://` name none.
pub open spec fn path_in_line(line: Seq<char>) -> Option<Seq<char>> {
    let entry = trim(line);
    if entry.len() == 0 || entry[0] == '#' {
        None
    } else if entry.len() >= 7 && entry.take(7) == file_scheme() {
        Some(entry.skip(7))
    } else {
        None
    }
}

/// The paths that the lines of a URI list name, in order.
pub open spec fn paths_in_lines(lines: Seq<Seq<char>>) -> Seq<Seq<char>>
    decreases lines.len(),
{
    if lines.len() == 0 {
        Seq::empty()
    } else {
        let before = paths_in_lines(lines.drop_last());
        match path_in_line(lines.last()) {
            Some(path) => before.push(path),
            None => before,
        }
    }
}

/// The paths that a URI list names.
pub open spec fn uri_list_paths(text: Seq<char>) -> Seq<Seq<char>> {
    paths_in_lines(lines_of(text))
}

/// Decides whether `chars[at..end]` begins with `file://`.
fn scheme_at(chars: &Vec<char>, at: usize, end: usize) -> (r: bool)
    requires
        at <= end <= chars.len(),
    ensures
        r == (end - at >= 7 && chars@.subrange(at as int, end as int).take(7) == file_scheme()),
{
    if end - at < 7 {
        return false;
    }
    let ghost part = chars@.subrange(at as int, end as int).take(7);
    let r = chars[at] == 'f' && chars[at + 1] == 'i' && chars[at + 2] == 'l' && chars[at + 3] == 'e'
        && chars[at + 4] == ':' && chars[at + 5] == '/' && chars[at + 6] == '/';
    if r {
        assert(part =~= file_scheme());
    }
    r
}

/// The characters `chars[from..to]` as a string.
fn string_of_range(chars: &Vec<char>, from: usize, to: usize) -> (out: String)
    requires
        from <= to <= chars.len(),
    ensures
        out@ == chars@.subrange(from as int, to as int),
{
    let mut part: Vec<char> = Vec::new();
    let mut i: usize = from;
    while i < to
        invariant
            from <= i <= to <= chars.len(),
            part@ == chars@.subrange(from as int, i as int),
        decreases to - i,
    {
        part.push(chars[i]);
        i += 1;
    }
    string_of(&part)
}

/// Reads the path that the line `chars[start..end]` names, if any.
fn line_path(chars: &Vec<char>, start: usize, end: usize) -> (r: Option<String>)
    requires
        start <= end <= chars.len(),
    ensures
        optional_text(r) == path_in_line(chars@.subrange(start as int, end as int)),
{
    let (from, to) = trim_range(chars, start, end);
    if from == to {
        return None;
    }
    if chars[from] == '#' {
        return None;
    }
    if !scheme_at(chars, from, to) {
        return None;
    }
    Some(string_of_range(chars, from + 7, to))
}

/// Reads the file paths out of a URI list: one entry per line, white space
/// around an entry set aside, blank lines and comment lines skipped, and
/// only `file://` entries kept, each without that prefix.
pub fn parse_uri_list(text: &str) -> (paths: Vec<String>)
    ensures
        texts(paths@) == uri_list_paths(text@),
{
    let chars = chars_of(text);
    let mut paths: Vec<String> = Vec::new();
    let ghost mut done: Seq<Seq<char>> = Seq::empty();
    let mut start: usize = 0;
    let mut i: usize = 0;
    assert(chars@.take(0) =~= Seq::<char>::empty());
    while i < chars.len()
        invariant
            0 <= start <= i <= chars.len(),
            lines_of(chars@.take(i as int)) == done.push(chars@.subrange(start as int, i as int)),
            texts(paths@) == paths_in_lines(done),
        decreases chars.len() - i,
    {
        let ghost line = chars@.subrange(start as int, i as int);
        assert(chars@.take(i + 1).drop_last() =~= chars@.take(i as int));
        assert(done.push(line).drop_last() =~= done);
        if chars[i] == '\n' {
            let found = line_path(&chars, start, i);
            match found {
                Some(path) => {
                    paths.push(path);
                },
                None => {},
            }
            proof {
                done = done.push(line);
                assert(chars@.subrange(i + 1, i + 1) =~= Seq::<char>::empty());
            }
            start = i + 1;
        } else {
            assert(line.push(chars@[i as int]) =~= chars@.subrange(start as int, i + 1));
        }
        i += 1;
    }
    assert(chars@.take(chars.len() as int) =~= chars@);
    let ghost line = chars@.subrange(start as int, chars.len() as int);
    assert(done.push(line).drop_last() =~= done);
    let found = line_path(&chars, start, chars.len());
    match found {
        Some(path) => {
            paths.push(path);
        },
        None => {},
    }
    paths
}

/// What a read of the file paths amounts to: the paths that the helper's
/// output names as a URI list, possibly none.
pub open spec fn file_paths_read(run: RunModel) -> Result<Seq<Seq<char>>, ErrorModel> {
    match run {
        RunModel::Finished(output) => if !output.success {
            Err(absent("Failed to read clipboard for file paths: "@ + utf8_lossy(output.stderr)))
        } else {
            Ok(uri_list_paths(utf8_lossy(output.stdout)))
        },
        RunModel::NotStarted(reason) => Err(not_started(reason)),
    }
}

/// Reads the clipboard's file paths from the run of the helper that
/// `read_file_paths_command` asked for.
pub fn read_clipboard_file_paths(run: &HelperRun) -> (r: Result<Vec<String>, ClipboardError>)
    ensures
        list_result(r) == file_paths_read(run@),
{
    match run {
        HelperRun::Finished(output) => {
            if !output.success {
                Err(helper_failed("Failed to read clipboard for file paths: ", &output.stderr))
            } else {
                let content = string_from_utf8_lossy(output.stdout.as_slice());
                Ok(parse_uri_list(content.as_str()))
            }
        },
        HelperRun::NotStarted(reason) => Err(helper_not_started(reason.as_str())),
    }
}

/// A path that a URI list can carry: it holds no line feed and does not
/// end in white space.
pub open spec fn is_listable(path: Seq<char>) -> bool {
    &&& forall|i: int| 0 <= i < path.len() ==> path[i] != '\n'
    &&& path.len() > 0 ==> !is_whitespace(path.last())
}

/// A line feed behind a text begins a new line.
proof fn lemma_lines_after_line_feed(text: Seq<char>, line: Seq<char>)
    requires
        forall|i: int| 0 <= i < line.len() ==> line[i] != '\n',
    ensures
        lines_of(text + seq!['\n'] + line) == lines_of(text).push(line),
    decreases line.len(),
{
    let whole = text + seq!['\n'] + line;
    if line.len() == 0 {
        assert(whole.drop_last() =~= text);
        assert(line =~= Seq::<char>::empty());
    } else {
        let shorter = line.drop_last();
        lemma_lines_after_line_feed(text, shorter);
        assert(whole.drop_last() =~= text + seq!['\n'] + shorter);
        assert(shorter.push(line.last()) =~= line);
    }
}

/// A text without a line feed is one line.
proof fn lemma_one_line(line: Seq<char>)
    requires
        forall|i: int| 0 <= i < line.len() ==> line[i] != '\n',
    ensures
        lines_of(line) == seq![line],
    decreases line.len(),
{
    if line.len() == 0 {
        assert(line =~= Seq::<char>::empty());
    } else {
        let shorter = line.drop_last();
        lemma_one_line(shorter);
        assert(shorter.push(line.last()) =~= line);
    }
}

/// Lines joined by line feeds are the lines of the joined text.
proof fn lemma_lines_of_joined(lines: Seq<Seq<char>>)
    requires
        lines.len() >= 1,
        forall|k: int, i: int|
            0 <= k < lines.len() && 0 <= i < lines[k].len() ==> (#[trigger] lines[k][i]) != '\n',
    ensures
        lines_of(join(lines, seq!['\n'])) == lines,
    decreases lines.len(),
{
    if lines.len() == 1 {
        lemma_one_line(lines[0]);
    } else {
        let before = lines.drop_last();
        lemma_lines_of_joined(before);
        lemma_lines_after_line_feed(join(before, seq!['\n']), lines.last());
    }
}

/// The URI of a listable path is a line that names that path.
proof fn lemma_uri_line_names_path(path: Seq<char>)
    requires
        is_listable(path),
    ensures
        path_in_line(file_uri_of(path)) == Some(path),
{
    let line = file_uri_of(path);
    crate::text::lemma_leading_whitespace(line, 0);
    crate::text::lemma_trailing_whitespace(line, 0);
    assert(line.subrange(0, line.len() as int) =~= line);
    assert(line.take(7) =~= file_scheme());
    assert(line.skip(7) =~= path);
}

/// The URIs of listable paths are lines that name those paths.
proof fn lemma_uri_lines_name_paths(paths: Seq<Seq<char>>)
    requires
        forall|k: int| 0 <= k < paths.len() ==> is_listable(#[trigger] paths[k]),
    ensures
        paths_in_lines(paths.map_values(|path: Seq<char>| file_uri_of(path))) == paths,
    decreases paths.len(),
{
    let lines = paths.map_values(|path: Seq<char>| file_uri_of(path));
    if paths.len() > 0 {
        assert(lines.drop_last() =~= paths.drop_last().map_values(
            |path: Seq<char>| file_uri_of(path),
        ));
        lemma_uri_lines_name_paths(paths.drop_last());
        lemma_uri_line_names_path(paths.last());
    }
}

/// The paths written into a URI block are the paths read out of it, in
/// the same order, whenever each of them is listable.
pub proof fn lemma_uri_block_round_trip(paths: Seq<Seq<char>>)
    requires
        forall|k: int| 0 <= k < paths.len() ==> is_listable(#[trigger] paths[k]),
    ensures
        uri_list_paths(uri_block(paths)) == paths,
{
    reveal_strlit("\n");
    assert("\n"@ =~= seq!['\n']);
    let lines = paths.map_values(|path: Seq<char>| file_uri_of(path));
    if paths.len() == 0 {
        let only = seq![Seq::<char>::empty()];
        assert(paths_in_lines(only.drop_last()) =~= Seq::<Seq<char>>::empty());
    } else {
        lemma_lines_of_joined(lines);
        lemma_uri_lines_name_paths(paths);
    }
}

/// What a write of listable paths feeds to the helper is read back as
/// those paths, when the helper prints it unchanged.
pub proof fn lemma_written_paths_read_back(
    paths: Seq<Seq<char>>,
    exit_code: Option<i32>,
    stderr: Seq<u8>,
)
    requires
        forall|k: int| 0 <= k < paths.len() ==> is_listable(#[trigger] paths[k]),
    ensures
        file_paths_read(
            RunModel::Finished(
                OutputModel {
                    success: true,
                    exit_code,
                    stdout: write_command(paths).input->Some_0,
                    stderr,
                },
            ),
        ) == Ok::<Seq<Seq<char>>, ErrorModel>(paths),
{
    lemma_utf8_lossy_reads_back(uri_block(paths));
    lemma_uri_block_round_trip(paths);
}

/// Reading is a function of what the helper printed: runs that ended
/// alike are read alike, however often they are read.
pub proof fn lemma_reads_are_repeatable(first: HelperRun, second: HelperRun)
    requires
        first@ == second@,
    ensures
        file_paths_read(first@) == file_paths_read(second@),
        text_read(first@) == text_read(second@),
        raw_read(first@) == raw_read(second@),
{
}

} // verus!
