//! Command-line argument parsing for the SVD tool front end.
//!
//! The argument vector (the process arguments after the program name) is
//! parsed into a closed set of four subcommands. `spec_parse` is the
//! mathematical description of the grammar; `parse_args` is the executable
//! parser, proved to agree with it exactly.

use vstd::prelude::*;

verus! {

/// One invocation's subcommand, with only the fields its operation needs.
#[derive(Debug)]
pub enum Command {
    /// Patch an SVD file as specified by a YAML file.
    Patch { svd_file: String },
    /// Generate a Make dependency file listing dependencies of a YAML file.
    Makedeps { yaml_file: String, deps_file: String },
    /// Print the list of all interrupts described by an SVD file.
    Interrupts { svd_file: String, no_gaps: bool },
    /// Generate a text-based memory map of an SVD file.
    Mmap { svd_file: String },
}

/// The mathematical model of a `Command`: the same four variants with the
/// path arguments as character sequences.
pub enum CommandView {
    Patch { svd_file: Seq<char> },
    Makedeps { yaml_file: Seq<char>, deps_file: Seq<char> },
    Interrupts { svd_file: Seq<char>, no_gaps: bool },
    Mmap { svd_file: Seq<char> },
}

impl View for Command {
    type V = CommandView;

    open spec fn view(&self) -> CommandView {
        match self {
            Command::Patch { svd_file } => CommandView::Patch { svd_file: svd_file@ },
            Command::Makedeps { yaml_file, deps_file } => CommandView::Makedeps {
                yaml_file: yaml_file@,
                deps_file: deps_file@,
            },
            Command::Interrupts { svd_file, no_gaps } => CommandView::Interrupts {
                svd_file: svd_file@,
                no_gaps: *no_gaps,
            },
            Command::Mmap { svd_file } => CommandView::Mmap { svd_file: svd_file@ },
        }
    }
}

/// Wraps the one `Command` of an invocation.
#[derive(Debug)]
pub struct CliArgs {
    pub command: Command,
}

/// Why an argument vector was rejected before dispatch.
#[derive(Debug, Clone, Copy, PartialEq, Eq, Structural)]
pub enum UsageError {
    /// The argument vector was empty: no subcommand was named.
    MissingCommand,
    /// The first token is none of the four subcommand names.
    UnknownCommand,
    /// A known subcommand was given the wrong positional arguments or flags.
    BadArguments,
}

/// A token that looks like a flag: it begins with `-`. Such a token is
/// never taken as a positional path; the one flag the grammar knows is
/// `--no-gaps`, and only for `interrupts`.
pub open spec fn spec_flag_like(tok: Seq<char>) -> bool {
    tok.len() > 0 && tok[0] == '-'
}

/// The grammar of the argument vector, as a partial function: `Some` with
/// the parsed command exactly on the vectors the front end accepts.
///
/// The first token selects the subcommand; `patch` and `mmap` take one
/// positional path, `makedeps` two, and `interrupts` one positional path
/// plus an optional `--no-gaps` flag on either side of it. A flag-like
/// token (leading `-`) other than that one flag rejects the vector: it is
/// neither a known flag nor a path.
pub open spec fn spec_parse(a: Seq<Seq<char>>) -> Option<CommandView> {
    if a.len() == 0 {
        None
    } else if a[0] == "patch"@ {
        if a.len() == 2 && !spec_flag_like(a[1]) {
            Some(CommandView::Patch { svd_file: a[1] })
        } else {
            None
        }
    } else if a[0] == "makedeps"@ {
        if a.len() == 3 && !spec_flag_like(a[1]) && !spec_flag_like(a[2]) {
            Some(CommandView::Makedeps { yaml_file: a[1], deps_file: a[2] })
        } else {
            None
        }
    } else if a[0] == "interrupts"@ {
        if a.len() == 2 && !spec_flag_like(a[1]) {
            Some(CommandView::Interrupts { svd_file: a[1], no_gaps: false })
        } else if a.len() == 3 && a[1] == "--no-gaps"@ && !spec_flag_like(a[2]) {
            Some(CommandView::Interrupts { svd_file: a[2], no_gaps: true })
        } else if a.len() == 3 && !spec_flag_like(a[1]) && a[2] == "--no-gaps"@ {
            Some(CommandView::Interrupts { svd_file: a[1], no_gaps: true })
        } else {
            None
        }
    } else if a[0] == "mmap"@ {
        if a.len() == 2 && !spec_flag_like(a[1]) {
            Some(CommandView::Mmap { svd_file: a[1] })
        } else {
            None
        }
    } else {
        None
    }
}

/// Whether the first token of `a` names one of the four subcommands.
pub open spec fn spec_known_command(tok: Seq<char>) -> bool {
    ||| tok == "patch"@
    ||| tok == "makedeps"@
    ||| tok == "interrupts"@
    ||| tok == "mmap"@
}

/// The error that `parse_args` reports on a vector the grammar rejects.
pub open spec fn spec_usage_error(a: Seq<Seq<char>>) -> UsageError
    recommends
        spec_parse(a) is None,
{
    if a.len() == 0 {
        UsageError::MissingCommand
    } else if !spec_known_command(a[0]) {
        UsageError::UnknownCommand
    } else {
        UsageError::BadArguments
    }
}

/// Compares an argument with a fixed token.
fn string_eq(s: &String, lit: &str) -> (r: bool)
    ensures
        r == (s@ == lit@),
{
    let owned: String = lit.to_owned();
    *s == owned
}

/// Whether an argument begins with `-`, making it flag-like rather than a
/// positional path.
fn is_flag_like(s: &String) -> (r: bool)
    ensures
        r == spec_flag_like(s@),
{
    if s.as_str().is_empty() {
        false
    } else {
        s.as_str().get_char(0) == '-'
    }
}

/// Parses the argument vector (the process arguments after the program
/// name) into a `Command`, or reports why it is rejected. Agrees exactly
/// with `spec_parse`: it succeeds if and only if the grammar accepts the
/// vector, and then returns the parsed command.
pub fn parse_args(args: &Vec<String>) -> (r: Result<Command, UsageError>)
    ensures
        r is Ok <==> spec_parse(args.deep_view()) is Some,
        r matches Ok(c) ==> spec_parse(args.deep_view()) == Some(c@),
        r matches Err(e) ==> e == spec_usage_error(args.deep_view()),
{
    proof {
        assert(args.deep_view().len() == args@.len());
    }
    if args.len() == 0 {
        return Err(UsageError::MissingCommand);
    }
    proof {
        lemma_deep_view_index(args, 0);
    }
    let cmd = &args[0];
    if string_eq(cmd, "patch") {
        if args.len() == 2 {
            proof {
                lemma_deep_view_index(args, 1);
            }
            if is_flag_like(&args[1]) {
                Err(UsageError::BadArguments)
            } else {
                Ok(Command::Patch { svd_file: args[1].clone() })
            }
        } else {
            Err(UsageError::BadArguments)
        }
    } else if string_eq(cmd, "makedeps") {
        if args.len() == 3 {
            proof {
                lemma_deep_view_index(args, 1);
                lemma_deep_view_index(args, 2);
            }
            if is_flag_like(&args[1]) || is_flag_like(&args[2]) {
                Err(UsageError::BadArguments)
            } else {
                Ok(Command::Makedeps { yaml_file: args[1].clone(), deps_file: args[2].clone() })
            }
        } else {
            Err(UsageError::BadArguments)
        }
    } else if string_eq(cmd, "interrupts") {
        if args.len() == 2 {
            proof {
                lemma_deep_view_index(args, 1);
            }
            if is_flag_like(&args[1]) {
                Err(UsageError::BadArguments)
            } else {
                Ok(Command::Interrupts { svd_file: args[1].clone(), no_gaps: false })
            }
        } else if args.len() == 3 {
            proof {
                lemma_deep_view_index(args, 1);
                lemma_deep_view_index(args, 2);
            }
            if string_eq(&args[1], "--no-gaps") && !is_flag_like(&args[2]) {
                Ok(Command::Interrupts { svd_file: args[2].clone(), no_gaps: true })
            } else if !is_flag_like(&args[1]) && string_eq(&args[2], "--no-gaps") {
                Ok(Command::Interrupts { svd_file: args[1].clone(), no_gaps: true })
            } else {
                Err(UsageError::BadArguments)
            }
        } else {
            Err(UsageError::BadArguments)
        }
    } else if string_eq(cmd, "mmap") {
        if args.len() == 2 {
            proof {
                lemma_deep_view_index(args, 1);
            }
            if is_flag_like(&args[1]) {
                Err(UsageError::BadArguments)
            } else {
                Ok(Command::Mmap { svd_file: args[1].clone() })
            }
        } else {
            Err(UsageError::BadArguments)
        }
    } else {
        Err(UsageError::UnknownCommand)
    }
}

/// The deep view of an argument vector is, entry by entry, the view of
/// each argument string.
proof fn lemma_deep_view_index(args: &Vec<String>, i: int)
    requires
        0 <= i < args@.len(),
    ensures
        args.deep_view().len() == args@.len(),
        args.deep_view()[i] == args@[i]@,
{
}

impl UsageError {
    /// The user-facing reason an argument vector was rejected.
    pub fn message(&self) -> (m: String)
        ensures
            self is MissingCommand ==> m@ == "missing subcommand"@,
            self is UnknownCommand ==> m@ == "unknown subcommand"@,
            self is BadArguments ==> m@ == "wrong arguments for the subcommand"@,
    {
        match self {
            UsageError::MissingCommand => "missing subcommand".to_owned(),
            UsageError::UnknownCommand => "unknown subcommand".to_owned(),
            UsageError::BadArguments => "wrong arguments for the subcommand".to_owned(),
        }
    }
}

/// The usage synopsis printed beside any usage error.
pub fn usage_text() -> (s: String)
    ensures
        s@ == "usage: patch <svd_file> | makedeps <yaml_file> <deps_file> | interrupts <svd_file> [--no-gaps] | mmap <svd_file>"@,
{
    "usage: patch <svd_file> | makedeps <yaml_file> <deps_file> | interrupts <svd_file> [--no-gaps] | mmap <svd_file>".to_owned()
}

/// Law: each of the four subcommand names, given a minimally valid
/// argument vector, parses to exactly that variant carrying exactly the
/// supplied path arguments; for `interrupts`, the `--no-gaps` flag is
/// accepted on either side of the positional path.
pub proof fn lemma_parse_minimal_vectors(p: Seq<char>, q: Seq<char>)
    ensures
        !spec_flag_like(p) ==> spec_parse(seq!["patch"@, p]) == Some(
            CommandView::Patch { svd_file: p },
        ),
        !spec_flag_like(p) && !spec_flag_like(q) ==> spec_parse(seq!["makedeps"@, p, q]) == Some(
            CommandView::Makedeps { yaml_file: p, deps_file: q },
        ),
        !spec_flag_like(p) ==> spec_parse(seq!["interrupts"@, p]) == Some(
            CommandView::Interrupts { svd_file: p, no_gaps: false },
        ),
        !spec_flag_like(p) ==> spec_parse(seq!["interrupts"@, "--no-gaps"@, p]) == Some(
            CommandView::Interrupts { svd_file: p, no_gaps: true },
        ),
        !spec_flag_like(p) ==> spec_parse(seq!["interrupts"@, p, "--no-gaps"@]) == Some(
            CommandView::Interrupts { svd_file: p, no_gaps: true },
        ),
        !spec_flag_like(p) ==> spec_parse(seq!["mmap"@, p]) == Some(
            CommandView::Mmap { svd_file: p },
        ),
{
    reveal_strlit("patch");
    reveal_strlit("makedeps");
    reveal_strlit("interrupts");
    reveal_strlit("mmap");
    reveal_strlit("--no-gaps");
    lemma_command_tokens_distinct();
    let a_patch: Seq<Seq<char>> = seq!["patch"@, p];
    assert(a_patch.len() == 2 && a_patch[0] == "patch"@ && a_patch[1] == p);
    assert(!spec_flag_like(p) ==> spec_parse(a_patch) == Some(
        CommandView::Patch { svd_file: p },
    ));
    let a_makedeps: Seq<Seq<char>> = seq!["makedeps"@, p, q];
    assert(a_makedeps.len() == 3 && a_makedeps[0] == "makedeps"@ && a_makedeps[1] == p
        && a_makedeps[2] == q);
    assert(!spec_flag_like(p) && !spec_flag_like(q) ==> spec_parse(a_makedeps) == Some(
        CommandView::Makedeps { yaml_file: p, deps_file: q },
    ));
    let a_int: Seq<Seq<char>> = seq!["interrupts"@, p];
    assert(a_int.len() == 2 && a_int[0] == "interrupts"@ && a_int[1] == p);
    assert(!spec_flag_like(p) ==> spec_parse(a_int) == Some(
        CommandView::Interrupts { svd_file: p, no_gaps: false },
    ));
    let a_int_pre: Seq<Seq<char>> = seq!["interrupts"@, "--no-gaps"@, p];
    assert(a_int_pre.len() == 3 && a_int_pre[0] == "interrupts"@ && a_int_pre[1] == "--no-gaps"@
        && a_int_pre[2] == p);
    assert(!spec_flag_like(p) ==> spec_parse(a_int_pre) == Some(
        CommandView::Interrupts { svd_file: p, no_gaps: true },
    ));
    let a_int_post: Seq<Seq<char>> = seq!["interrupts"@, p, "--no-gaps"@];
    assert(a_int_post.len() == 3 && a_int_post[0] == "interrupts"@ && a_int_post[1] == p
        && a_int_post[2] == "--no-gaps"@);
    assert(!spec_flag_like(p) ==> spec_parse(a_int_post) == Some(
        CommandView::Interrupts { svd_file: p, no_gaps: true },
    ));
    let a_mmap: Seq<Seq<char>> = seq!["mmap"@, p];
    assert(a_mmap.len() == 2 && a_mmap[0] == "mmap"@ && a_mmap[1] == p);
    assert(!spec_flag_like(p) ==> spec_parse(a_mmap) == Some(CommandView::Mmap { svd_file: p }));
}

/// Law: a leading-dash token is no path. Where a positional path is
/// expected, a flag-like token rejects the vector; in particular an
/// unrecognized flag next to a valid path rejects it.
pub proof fn lemma_flag_like_path_rejected(tok: Seq<char>, p: Seq<char>)
    requires
        spec_flag_like(tok),
    ensures
        spec_parse(seq!["patch"@, tok]) is None,
        spec_parse(seq!["makedeps"@, tok, p]) is None,
        spec_parse(seq!["makedeps"@, p, tok]) is None,
        spec_parse(seq!["interrupts"@, tok]) is None,
        tok != "--no-gaps"@ ==> spec_parse(seq!["interrupts"@, tok, p]) is None,
        spec_parse(seq!["mmap"@, tok]) is None,
{
    reveal_strlit("patch");
    reveal_strlit("makedeps");
    reveal_strlit("interrupts");
    reveal_strlit("mmap");
    reveal_strlit("--no-gaps");
    lemma_command_tokens_distinct();
    let a_patch: Seq<Seq<char>> = seq!["patch"@, tok];
    assert(a_patch.len() == 2 && a_patch[0] == "patch"@ && a_patch[1] == tok);
    assert(spec_parse(a_patch) is None);
    let a_mk_pre: Seq<Seq<char>> = seq!["makedeps"@, tok, p];
    assert(a_mk_pre.len() == 3 && a_mk_pre[0] == "makedeps"@ && a_mk_pre[1] == tok
        && a_mk_pre[2] == p);
    assert(spec_parse(a_mk_pre) is None);
    let a_mk_post: Seq<Seq<char>> = seq!["makedeps"@, p, tok];
    assert(a_mk_post.len() == 3 && a_mk_post[0] == "makedeps"@ && a_mk_post[1] == p
        && a_mk_post[2] == tok);
    assert(spec_parse(a_mk_post) is None);
    let a_int: Seq<Seq<char>> = seq!["interrupts"@, tok];
    assert(a_int.len() == 2 && a_int[0] == "interrupts"@ && a_int[1] == tok);
    assert(spec_parse(a_int) is None);
    let a_int3: Seq<Seq<char>> = seq!["interrupts"@, tok, p];
    assert(a_int3.len() == 3 && a_int3[0] == "interrupts"@ && a_int3[1] == tok && a_int3[2] == p);
    assert(tok != "--no-gaps"@ ==> spec_parse(a_int3) is None);
    let a_mmap: Seq<Seq<char>> = seq!["mmap"@, tok];
    assert(a_mmap.len() == 2 && a_mmap[0] == "mmap"@ && a_mmap[1] == tok);
    assert(spec_parse(a_mmap) is None);
}

/// The five fixed tokens of the grammar are pairwise distinct (they have
/// different lengths), and the flag token is flag-like.
pub(crate) proof fn lemma_command_tokens_distinct()
    ensures
        spec_flag_like("--no-gaps"@),
        "patch"@ != "makedeps"@,
        "patch"@ != "interrupts"@,
        "patch"@ != "mmap"@,
        "patch"@ != "--no-gaps"@,
        "makedeps"@ != "interrupts"@,
        "makedeps"@ != "mmap"@,
        "makedeps"@ != "--no-gaps"@,
        "interrupts"@ != "mmap"@,
        "interrupts"@ != "--no-gaps"@,
        "mmap"@ != "--no-gaps"@,
{
    reveal_strlit("patch");
    reveal_strlit("makedeps");
    reveal_strlit("interrupts");
    reveal_strlit("mmap");
    reveal_strlit("--no-gaps");
    assert("patch"@.len() == 5);
    assert("makedeps"@.len() == 8);
    assert("interrupts"@.len() == 10);
    assert("mmap"@.len() == 4);
    assert("--no-gaps"@.len() == 9);
}

/// Law: a vector whose first token names none of the four subcommands is
/// rejected, whatever follows it, and reported as an unknown subcommand.
pub proof fn lemma_unknown_command_rejected(a: Seq<Seq<char>>)
    requires
        a.len() > 0,
        !spec_known_command(a[0]),
    ensures
        spec_parse(a) is None,
        spec_usage_error(a) == UsageError::UnknownCommand,
{
}

/// Law: the empty argument vector is rejected as a missing subcommand.
pub proof fn lemma_empty_vector_rejected()
    ensures
        spec_parse(Seq::<Seq<char>>::empty()) is None,
        spec_usage_error(Seq::<Seq<char>>::empty()) == UsageError::MissingCommand,
{
}

/// Law: a known subcommand with a required positional argument missing is
/// rejected, and reported as wrong arguments.
pub proof fn lemma_missing_argument_rejected(a: Seq<Seq<char>>)
    requires
        a.len() > 0,
        spec_known_command(a[0]),
        a[0] == "makedeps"@ ==> a.len() < 3,
        a[0] != "makedeps"@ ==> a.len() < 2,
    ensures
        spec_parse(a) is None,
        spec_usage_error(a) == UsageError::BadArguments,
{
    reveal_strlit("patch");
    reveal_strlit("makedeps");
    reveal_strlit("interrupts");
    reveal_strlit("mmap");
    reveal_strlit("--no-gaps");
    lemma_command_tokens_distinct();
    if a[0] == "makedeps"@ {
        assert(spec_parse(a) is None);
    } else {
        assert(a.len() == 1);
        assert(spec_parse(a) is None);
    }
}

impl CliArgs {
    /// Parses the argument vector into the one `CliArgs` value of this
    /// invocation, exactly as `parse_args` does.
    pub fn parse(args: &Vec<String>) -> (r: Result<CliArgs, UsageError>)
        ensures
            r is Ok <==> spec_parse(args.deep_view()) is Some,
            r matches Ok(c) ==> spec_parse(args.deep_view()) == Some(c.command@),
            r matches Err(e) ==> e == spec_usage_error(args.deep_view()),
    {
        match parse_args(args) {
            Ok(command) => Ok(CliArgs { command }),
            Err(e) => Err(e),
        }
    }
}

} // verus!
