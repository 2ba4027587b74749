//! Command-line argument parsing for the query tool.
//!
//! `parse_arguments` reads the argument list.  Help and version requests win
//! over everything else; otherwise the flags are consumed left to right.
//! When no repository path was given, the caller's current directory (read
//! by the caller, passed in as a plain value) takes its place.

use vstd::prelude::*;

use crate::cast::{all_digits, digits_value, is_digit, lemma_digits_value_grows};
use crate::pattern::{lower_of, to_lowercase_text};
use vstd::string::StrSliceExecFns;

verus! {

/// The output format the result printer will use.
#[derive(Clone, Copy, Debug, PartialEq, Eq, Structural)]
pub enum OutputFormatKind {
    Table,
    CSV,
    JSON,
    YAML,
}

/// The settings the tool runs with.
#[derive(Debug, PartialEq)]
pub struct Arguments {
    pub repos: Vec<String>,
    pub analysis: bool,
    pub pagination: bool,
    pub page_size: usize,
    pub enable_line_editor: bool,
    pub output_format: OutputFormatKind,
}

impl Arguments {
    /// The default settings: no repositories, a page size of ten, table
    /// output, everything else off.
    pub fn new() -> (r: Arguments)
        ensures
            r.repos@.len() == 0,
            !r.analysis,
            !r.pagination,
            r.page_size == 10,
            !r.enable_line_editor,
            r.output_format == OutputFormatKind::Table,
    {
        Arguments {
            repos: Vec::new(),
            analysis: false,
            pagination: false,
            page_size: 10,
            enable_line_editor: false,
            output_format: OutputFormatKind::Table,
        }
    }
}

/// What the tool was asked to do.
#[derive(Debug, PartialEq)]
pub enum Command {
    ReplMode(Arguments),
    QueryMode(String, Arguments),
    ScriptMode(String, Arguments),
    Help,
    Version,
    Error(String),
}

/// The texts of a string sequence.
pub open spec fn texts_of(s: Seq<String>) -> Seq<Seq<char>> {
    Seq::new(s.len(), |i: int| s[i]@)
}

/// The settings as a mathematical state.
pub struct ArgsState {
    pub repos: Seq<Seq<char>>,
    pub analysis: bool,
    pub pagination: bool,
    pub page_size: usize,
    pub enable_line_editor: bool,
    pub output_format: OutputFormatKind,
    pub query: Option<Seq<char>>,
    pub script: Option<Seq<char>>,
}

/// The mathematical account of a parse.
pub enum CommandView {
    Repl(ArgsState),
    Query(Seq<char>, ArgsState),
    Script(Seq<char>, ArgsState),
    Help,
    Version,
    Fail,
}

/// The outcome of the flag-consuming pass.
pub enum ParseOutcome {
    Done(ArgsState),
    Fail,
}

/// Whether an argument looks like a flag: it begins with a dash.
pub open spec fn is_flaglike(s: Seq<char>) -> bool {
    s.len() > 0 && s[0] == '-'
}

/// Whether some argument asks for help.
pub open spec fn wants_help(args: Seq<String>) -> bool {
    exists|i: int| 0 <= i < args.len() && ((#[trigger] args[i])@ == "--help"@ || args[i]@ == "-h"@)
}

/// Whether some argument asks for the version.
pub open spec fn wants_version(args: Seq<String>) -> bool {
    exists|i: int|
        0 <= i < args.len() && ((#[trigger] args[i])@ == "--version"@ || args[i]@ == "-v"@)
}

/// How many repository paths follow position `j`: the run of arguments that
/// do not look like flags.
pub open spec fn repo_run_len(args: Seq<String>, j: int) -> int
    decreases args.len() - j,
{
    if j < 0 || j >= args.len() || is_flaglike(args[j]@) {
        0
    } else {
        1 + repo_run_len(args, j + 1)
    }
}

/// The repository paths of that run.
pub open spec fn repo_run(args: Seq<String>, j: int) -> Seq<Seq<char>>
    decreases args.len() - j,
{
    if j < 0 || j >= args.len() || is_flaglike(args[j]@) {
        Seq::empty()
    } else {
        seq![args[j]@] + repo_run(args, j + 1)
    }
}

/// The run length is never negative and never runs past the end.
pub proof fn lemma_repo_run_len(args: Seq<String>, j: int)
    requires
        0 <= j <= args.len(),
    ensures
        0 <= repo_run_len(args, j),
        j + repo_run_len(args, j) <= args.len(),
    decreases args.len() - j,
{
    if !(j >= args.len() || is_flaglike(args[j]@)) {
        lemma_repo_run_len(args, j + 1);
    }
}

/// The unsigned integer denoted by the text, if any: an optional plus sign,
/// then one or more decimal digits, within the pointer-width range.
pub open spec fn parse_usize_spec(s: Seq<char>) -> Option<usize> {
    let ds = if s.len() > 0 && s[0] == '+' {
        s.skip(1)
    } else {
        s
    };
    if ds.len() == 0 || !all_digits(ds) {
        None
    } else {
        let m = digits_value(ds);
        if m <= usize::MAX {
            Some(m as usize)
        } else {
            None
        }
    }
}

/// The flag-consuming pass from position `i`, with the settings so far.
pub open spec fn parse_from(args: Seq<String>, i: int, st: ArgsState) -> ParseOutcome
    decreases args.len() - i, 1nat,
    via parse_from_decreases
{
    if i < 0 || i >= args.len() {
        ParseOutcome::Done(st)
    } else {
        let arg = args[i]@;
        if !is_flaglike(arg) {
            ParseOutcome::Fail
        } else if arg == "--repos"@ || arg == "-r"@ {
            if i + 1 >= args.len() {
                ParseOutcome::Fail
            } else {
                let n = repo_run_len(args, i + 1);
                parse_from(
                    args,
                    i + 1 + n,
                    ArgsState { repos: st.repos + repo_run(args, i + 1), ..st },
                )
            }
        } else if arg == "--query"@ || arg == "-q"@ {
            if i + 1 >= args.len() {
                ParseOutcome::Fail
            } else {
                parse_from(args, i + 2, ArgsState { query: Some(args[i + 1]@), ..st })
            }
        } else if arg == "--script"@ || arg == "-s"@ {
            if i + 1 >= args.len() {
                ParseOutcome::Fail
            } else {
                parse_from(args, i + 2, ArgsState { script: Some(args[i + 1]@), ..st })
            }
        } else if arg == "--analysis"@ || arg == "-a"@ {
            parse_from(args, i + 1, ArgsState { analysis: true, ..st })
        } else if arg == "--pagination"@ || arg == "-p"@ {
            parse_from(args, i + 1, ArgsState { pagination: true, ..st })
        } else if arg == "--pagesize"@ || arg == "-ps"@ {
            if i + 1 >= args.len() {
                ParseOutcome::Fail
            } else {
                match parse_usize_spec(args[i + 1]@) {
                    Some(v) => parse_from(args, i + 2, ArgsState { page_size: v, ..st }),
                    None => ParseOutcome::Fail,
                }
            }
        } else if arg == "--editor"@ || arg == "-e"@ {
            parse_from(args, i + 1, ArgsState { enable_line_editor: true, ..st })
        } else if arg == "--output"@ || arg == "-o"@ {
            if i + 1 >= args.len() {
                ParseOutcome::Fail
            } else {
                let low = lower_of(args[i + 1]@);
                if low == "csv"@ {
                    parse_from(args, i + 2, ArgsState { output_format: OutputFormatKind::CSV, ..st })
                } else if low == "json"@ {
                    parse_from(
                        args,
                        i + 2,
                        ArgsState { output_format: OutputFormatKind::JSON, ..st },
                    )
                } else if low == "table"@ || low == "render"@ {
                    parse_from(
                        args,
                        i + 2,
                        ArgsState { output_format: OutputFormatKind::Table, ..st },
                    )
                } else if low == "yaml"@ {
                    parse_from(
                        args,
                        i + 2,
                        ArgsState { output_format: OutputFormatKind::YAML, ..st },
                    )
                } else {
                    ParseOutcome::Fail
                }
            }
        } else {
            ParseOutcome::Fail
        }
    }
}

#[via_fn]
proof fn parse_from_decreases(args: Seq<String>, i: int, st: ArgsState) {
    if 0 <= i < args.len() {
        if i + 1 < args.len() {
            lemma_repo_run_len(args, i + 1);
        }
    }
}

/// The default settings as a state.
pub open spec fn initial_state() -> ArgsState {
    ArgsState {
        repos: Seq::empty(),
        analysis: false,
        pagination: false,
        page_size: 10,
        enable_line_editor: false,
        output_format: OutputFormatKind::Table,
        query: None,
        script: None,
    }
}

/// The whole parse: help and version scans first, then the flag pass, then
/// the current-directory fallback, then the mode choice.
pub open spec fn parse_arguments_spec(args: Seq<String>, cur: Option<Seq<char>>) -> CommandView {
    if wants_help(args) {
        CommandView::Help
    } else if wants_version(args) {
        CommandView::Version
    } else {
        match parse_from(args, 1, initial_state()) {
            ParseOutcome::Fail => CommandView::Fail,
            ParseOutcome::Done(st) => {
                if st.repos.len() == 0 && cur is None {
                    CommandView::Fail
                } else {
                    let st2 = if st.repos.len() == 0 {
                        ArgsState { repos: seq![cur->Some_0], ..st }
                    } else {
                        st
                    };
                    match st.script {
                        Some(s) => CommandView::Script(s, st2),
                        None => match st.query {
                            Some(q) => CommandView::Query(q, st2),
                            None => CommandView::Repl(st2),
                        },
                    }
                }
            },
        }
    }
}

/// Whether the settings agree with a state.
pub open spec fn arguments_match(a: Arguments, st: ArgsState) -> bool {
    &&& texts_of(a.repos@) == st.repos
    &&& a.analysis == st.analysis
    &&& a.pagination == st.pagination
    &&& a.page_size == st.page_size
    &&& a.enable_line_editor == st.enable_line_editor
    &&& a.output_format == st.output_format
}

/// Whether the returned command agrees with the mathematical account.
pub open spec fn command_matches(r: Command, cv: CommandView) -> bool {
    match r {
        Command::Help => cv is Help,
        Command::Version => cv is Version,
        Command::Error(_) => cv is Fail,
        Command::ReplMode(a) => cv matches CommandView::Repl(st) && arguments_match(a, st),
        Command::QueryMode(q, a) => cv matches CommandView::Query(qv, st) && q@ == qv
            && arguments_match(a, st),
        Command::ScriptMode(s, a) => cv matches CommandView::Script(sv, st) && s@ == sv
            && arguments_match(a, st),
    }
}

/// Whether an argument begins with a dash, executably.
fn flag_like(s: &String) -> (r: bool)
    ensures
        r == is_flaglike(s@),
{
    s.as_str().unicode_len() > 0 && s.as_str().get_char(0) == '-'
}

/// The unsigned decimal parser, proved against `parse_usize_spec`.
#[verifier::loop_isolation(false)]
pub fn parse_usize_text(s: &String) -> (r: Option<usize>)
    ensures
        r == parse_usize_spec(s@),
{
    let st = s.as_str();
    let n = st.unicode_len();
    if n == 0 {
        return None;
    }
    let has_sign = st.get_char(0) == '+';
    let start: usize = if has_sign {
        1
    } else {
        0
    };
    let ghost ds: Seq<char> = if has_sign {
        s@.skip(1)
    } else {
        s@
    };
    if n == start {
        return None;
    }
    let bound: u64 = usize::MAX as u64;
    let mut acc: u64 = 0;
    let mut i: usize = start;
    while i < n
        invariant
            start <= i <= n,
            acc == digits_value(ds.take(i - start)),
            all_digits(ds.take(i - start)),
            acc <= bound,
        decreases n - i,
    {
        let c = st.get_char(i);
        let cv = c as u32;
        proof {
            assert(ds[i - start] == s@[i as int]);
            assert(ds.take(i - start + 1).drop_last() =~= ds.take(i - start));
            assert(ds.take(i - start + 1).last() == ds[i - start]);
        }
        if !(48 <= cv && cv <= 57) {
            proof {
                assert(!is_digit(ds[i - start]));
            }
            return None;
        }
        let d: u64 = (cv - 48) as u64;
        proof {
            assert forall|j: int| 0 <= j < i - start + 1 implies is_digit(
                #[trigger] ds.take(i - start + 1)[j],
            ) by {
                if j < i - start {
                    assert(ds.take(i - start + 1)[j] == ds.take(i - start)[j]);
                } else {
                    assert(ds.take(i - start + 1)[j] == ds[i - start]);
                }
            }
        }
        if acc > (bound - d) / 10 {
            proof {
                assert(acc * 10 + d > bound) by (nonlinear_arith)
                    requires
                        acc > (bound - d) / 10,
                        d <= 9,
                        bound >= 10,
                ;
                assert(digits_value(ds.take(i - start + 1)) > bound);
                if all_digits(ds) {
                    lemma_digits_value_grows(ds, i - start + 1);
                }
            }
            return None;
        }
        proof {
            assert(acc * 10 + d <= bound) by (nonlinear_arith)
                requires
                    acc <= (bound - d) / 10,
                    d <= 9,
                    bound >= 10,
            ;
        }
        acc = acc * 10 + d;
        i += 1;
    }
    proof {
        assert(ds.take(n - start) =~= ds);
    }
    Some(acc as usize)
}

/// Parses the argument list into a command.  `current_dir` is the caller's
/// working directory, used when no repository path was given; `None` means
/// the caller could not read it.
#[verifier::loop_isolation(false)]
#[verifier::rlimit(100)]
pub fn parse_arguments(args: &Vec<String>, current_dir: Option<&str>) -> (r: Command)
    ensures
        command_matches(
            r,
            parse_arguments_spec(
                args@,
                (match current_dir {
                    Some(d) => Some(d@),
                    None => None,
                }),
            ),
        ),
{
    let args_len = args.len();
    let mut scan: usize = 0;
    while scan < args_len
        invariant
            scan <= args_len,
            args_len == args@.len(),
            forall|i: int|
                0 <= i < scan ==> !((#[trigger] args@[i])@ == "--help"@ || args@[i]@ == "-h"@),
        decreases args_len - scan,
    {
        if args[scan] == "--help".to_owned() || args[scan] == "-h".to_owned() {
            return Command::Help;
        }
        scan += 1;
    }
    let mut scan2: usize = 0;
    while scan2 < args_len
        invariant
            scan2 <= args_len,
            forall|i: int|
                0 <= i < scan2 ==> !((#[trigger] args@[i])@ == "--version"@ || args@[i]@ == "-v"@),
        decreases args_len - scan2,
    {
        if args[scan2] == "--version".to_owned() || args[scan2] == "-v".to_owned() {
            return Command::Version;
        }
        scan2 += 1;
    }
    let mut optional_query: Option<String> = None;
    let mut optional_script_file: Option<String> = None;
    let mut arguments = Arguments::new();
    let ghost st0 = initial_state();
    proof {
        assert(texts_of(arguments.repos@) =~= Seq::<Seq<char>>::empty());
    }

    let mut arg_index: usize = 1;
    while arg_index < args_len
        invariant
            args_len == args@.len(),
            parse_from(args@, 1, st0) == parse_from(
                args@,
                arg_index as int,
                ArgsState {
                    repos: texts_of(arguments.repos@),
                    analysis: arguments.analysis,
                    pagination: arguments.pagination,
                    page_size: arguments.page_size,
                    enable_line_editor: arguments.enable_line_editor,
                    output_format: arguments.output_format,
                    query: (match optional_query {
                        Some(ref q) => Some(q@),
                        None => None,
                    }),
                    script: (match optional_script_file {
                        Some(ref sf) => Some(sf@),
                        None => None,
                    }),
                },
            ),
        decreases args_len - arg_index,
    {
        let ghost st_here = ArgsState {
            repos: texts_of(arguments.repos@),
            analysis: arguments.analysis,
            pagination: arguments.pagination,
            page_size: arguments.page_size,
            enable_line_editor: arguments.enable_line_editor,
            output_format: arguments.output_format,
            query: (match optional_query {
                Some(ref q) => Some(q@),
                None => None,
            }),
            script: (match optional_script_file {
                Some(ref sf) => Some(sf@),
                None => None,
            }),
        };
        let arg = &args[arg_index];
        let flaglike = flag_like(arg);
        if !flaglike {
            return Command::Error("Unknown argument".to_owned());
        }
        if *arg == "--repos".to_owned() || *arg == "-r".to_owned() {
            arg_index += 1;
            if arg_index >= args_len {
                return Command::Error(
                    "Argument --repos must be followed by one or more paths".to_owned(),
                );
            }
            let ghost j0 = arg_index as int;
            proof {
                lemma_repo_run_len(args@, j0);
            }
            while arg_index < args_len && !flag_like(&args[arg_index])
                invariant
                    j0 <= arg_index as int <= args@.len(),
                    args_len == args@.len(),
                    repo_run_len(args@, j0) == (arg_index - j0) + repo_run_len(
                        args@,
                        arg_index as int,
                    ),
                    repo_run(args@, j0) == texts_of(arguments.repos@).skip(
                        st_here.repos.len() as int,
                    ) + repo_run(args@, arg_index as int),
                    texts_of(arguments.repos@).take(st_here.repos.len() as int) == st_here.repos,
                    texts_of(arguments.repos@).len() >= st_here.repos.len(),
                    arguments.analysis == st_here.analysis,
                    arguments.pagination == st_here.pagination,
                    arguments.page_size == st_here.page_size,
                    arguments.enable_line_editor == st_here.enable_line_editor,
                    arguments.output_format == st_here.output_format,
                decreases args_len - arg_index,
            {
                let repo = &args[arg_index];
                let ghost pre = arguments.repos@;
                arguments.repos.push(repo.clone());
                proof {
                    assert(texts_of(arguments.repos@).take(pre.len() as int) =~= texts_of(pre));
                    assert(texts_of(arguments.repos@).take(st_here.repos.len() as int)
                        =~= texts_of(pre).take(st_here.repos.len() as int));
                    assert(texts_of(arguments.repos@).skip(st_here.repos.len() as int)
                        =~= texts_of(pre).skip(st_here.repos.len() as int).push(repo@));
                    assert(repo_run(args@, j0) =~= texts_of(arguments.repos@).skip(
                        st_here.repos.len() as int,
                    ) + repo_run(args@, arg_index as int + 1));
                }
                arg_index += 1;
            }
            proof {
                assert(repo_run_len(args@, arg_index as int) == 0);
                assert(repo_run(args@, arg_index as int) =~= Seq::<Seq<char>>::empty());
                assert(texts_of(arguments.repos@) =~= st_here.repos + repo_run(args@, j0));
            }
        } else if *arg == "--query".to_owned() || *arg == "-q".to_owned() {
            arg_index += 1;
            if arg_index >= args_len {
                return Command::Error("Argument --query must be followed by the query".to_owned());
            }
            optional_query = Some(args[arg_index].clone());
            arg_index += 1;
        } else if *arg == "--script".to_owned() || *arg == "-s".to_owned() {
            arg_index += 1;
            if arg_index >= args_len {
                return Command::Error("Argument --script must be followed by the file".to_owned());
            }
            optional_script_file = Some(args[arg_index].clone());
            arg_index += 1;
        } else if *arg == "--analysis".to_owned() || *arg == "-a".to_owned() {
            arguments.analysis = true;
            arg_index += 1;
        } else if *arg == "--pagination".to_owned() || *arg == "-p".to_owned() {
            arguments.pagination = true;
            arg_index += 1;
        } else if *arg == "--pagesize".to_owned() || *arg == "-ps".to_owned() {
            arg_index += 1;
            if arg_index >= args_len {
                return Command::Error(
                    "Argument --pagesize must be followed by the page size".to_owned(),
                );
            }
            match parse_usize_text(&args[arg_index]) {
                Some(page_size) => {
                    arguments.page_size = page_size;
                },
                None => {
                    return Command::Error("Invalid page size".to_owned());
                },
            }
            arg_index += 1;
        } else if *arg == "--editor".to_owned() || *arg == "-e".to_owned() {
            arguments.enable_line_editor = true;
            arg_index += 1;
        } else if *arg == "--output".to_owned() || *arg == "-o".to_owned() {
            arg_index += 1;
            if arg_index >= args_len {
                return Command::Error(
                    "Argument --output must be followed by output format".to_owned(),
                );
            }
            let output_type = to_lowercase_text(&args[arg_index]);
            if output_type == "csv".to_owned() {
                arguments.output_format = OutputFormatKind::CSV;
            } else if output_type == "json".to_owned() {
                arguments.output_format = OutputFormatKind::JSON;
            } else if output_type == "table".to_owned() || output_type == "render".to_owned() {
                arguments.output_format = OutputFormatKind::Table;
            } else if output_type == "yaml".to_owned() {
                arguments.output_format = OutputFormatKind::YAML;
            } else {
                return Command::Error("Invalid output format".to_owned());
            }
            arg_index += 1;
        } else {
            return Command::Error("Unknown command".to_owned());
        }
    }

    if arguments.repos.len() == 0 {
        match current_dir {
            Some(dir) => {
                let ghost pre = arguments.repos@;
                arguments.repos.push(dir.to_owned());
                proof {
                    assert(texts_of(arguments.repos@) =~= seq![dir@]);
                }
            },
            None => {
                return Command::Error("Missing repositories paths".to_owned());
            },
        }
    }

    if let Some(script_file) = optional_script_file {
        Command::ScriptMode(script_file, arguments)
    } else if let Some(query) = optional_query {
        Command::QueryMode(query, arguments)
    } else {
        Command::ReplMode(arguments)
    }
}

} // verus!
