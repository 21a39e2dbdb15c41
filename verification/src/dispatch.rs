//! Dispatch of a parsed `Command` to the one matching collaborator
//! operation of the `svdtools` crate, and the exit-code decision.
//!
//! The mapping from command to collaborator call is modelled by `call_of`,
//! a total function on command values: every variant maps to exactly one
//! call, carrying exactly that variant's fields. The one computed twist is
//! the `interrupts` flag: the command records `no_gaps` (suppress gaps) while
//! the collaborator takes `show_gaps`, so the dispatcher passes the negation.

use vstd::prelude::*;

use crate::cli::Command;
use crate::cli::CommandView;

verus! {

/// The `anyhow` error type that every collaborator operation reports its
/// failure with. Opaque here: failures are passed through unchanged.
#[verifier::external_type_specification]
#[verifier::external_body]
pub struct ExAnyhowError(anyhow::Error);

/// One collaborator invocation: which operation, with which arguments.
#[derive(Debug)]
pub enum Call {
    /// Apply the patch specified by the given YAML file.
    Patch { svd_file: String },
    /// Write the dependency listing of `yaml_file` to `deps_file`.
    Makedeps { yaml_file: String, deps_file: String },
    /// Print the interrupt listing, with gaps shown iff `show_gaps`.
    Interrupts { svd_file: String, show_gaps: bool },
    /// Print the memory map of the given SVD file.
    Mmap { svd_file: String },
}

/// The mathematical model of a `Call`.
pub enum CallView {
    Patch { svd_file: Seq<char> },
    Makedeps { yaml_file: Seq<char>, deps_file: Seq<char> },
    Interrupts { svd_file: Seq<char>, show_gaps: bool },
    Mmap { svd_file: Seq<char> },
}

impl View for Call {
    type V = CallView;

    open spec fn view(&self) -> CallView {
        match self {
            Call::Patch { svd_file } => CallView::Patch { svd_file: svd_file@ },
            Call::Makedeps { yaml_file, deps_file } => CallView::Makedeps {
                yaml_file: yaml_file@,
                deps_file: deps_file@,
            },
            Call::Interrupts { svd_file, show_gaps } => CallView::Interrupts {
                svd_file: svd_file@,
                show_gaps: *show_gaps,
            },
            Call::Mmap { svd_file } => CallView::Mmap { svd_file: svd_file@ },
        }
    }
}

/// The dispatch mapping: the one collaborator call a command leads to.
/// Total on commands; each variant maps to the call of the same operation
/// with the same fields, and `show_gaps` is the negation of `no_gaps`.
pub open spec fn call_of(c: CommandView) -> CallView {
    match c {
        CommandView::Patch { svd_file } => CallView::Patch { svd_file },
        CommandView::Makedeps { yaml_file, deps_file } => CallView::Makedeps {
            yaml_file,
            deps_file,
        },
        CommandView::Interrupts { svd_file, no_gaps } => CallView::Interrupts {
            svd_file,
            show_gaps: !no_gaps,
        },
        CommandView::Mmap { svd_file } => CallView::Mmap { svd_file },
    }
}

/// Relies on `svdtools::patch::process_file` (what the crate's own command
/// line runs for its `patch` subcommand): applies the patch YAML to the SVD
/// file it names, writing the patched copy beside it, with the default
/// configuration. Success and failure depend on what is on disk. Like the
/// underlying tool, it aborts the process instead of failing on a patch
/// file that holds no YAML document at all (the call unwraps the first
/// document).
#[verifier::external_body]
fn apply_patch(svd_file: &String) -> Result<(), anyhow::Error> {
    svdtools::patch::process_file(
        std::path::Path::new(svd_file.as_str()),
        None,
        None,
        &svdtools::patch::Config::default(),
    )
}

/// Relies on `svdtools::makedeps::makedeps_cli::makedeps`: writes the Make
/// dependency listing of `yaml_file` to `deps_file`. Success and failure
/// depend on what is on disk. Like the underlying tool, it aborts the
/// process instead of failing on a YAML file that holds no document at all
/// (the call indexes the first document).
#[verifier::external_body]
fn write_makedeps(yaml_file: &String, deps_file: &String) -> Result<(), anyhow::Error> {
    svdtools::makedeps::makedeps_cli::makedeps(
        std::path::Path::new(yaml_file.as_str()),
        std::path::Path::new(deps_file.as_str()),
    )
}

/// Relies on `svdtools::interrupts::interrupts_cli::parse_device`: prints
/// the interrupt listing of the SVD file, with gaps in the numbering shown
/// iff `show_gaps`. Success and failure depend on what is on disk; only a
/// file that cannot be opened is reported as a failure — like the
/// underlying tool, it aborts the process on a malformed SVD document (its
/// reader expects a well-formed one).
#[verifier::external_body]
fn list_interrupts(svd_file: &String, show_gaps: bool) -> Result<(), anyhow::Error> {
    svdtools::interrupts::interrupts_cli::parse_device(
        std::path::Path::new(svd_file.as_str()),
        show_gaps,
    )
}

/// Relies on `svdtools::mmap::mmap_cli::parse_device`: prints the memory
/// map of the SVD file. Success and failure depend on what is on disk; a
/// malformed document is reported as a failure, but like the underlying
/// tool, it aborts the process when the file cannot be opened at all.
#[verifier::external_body]
fn render_memory_map(svd_file: &String) -> Result<(), anyhow::Error> {
    svdtools::mmap::mmap_cli::parse_device(std::path::Path::new(svd_file.as_str()))
}

impl Command {
    /// The collaborator call this command dispatches to, exactly as
    /// `call_of` maps it.
    pub fn target(&self) -> (r: Call)
        ensures
            r@ == call_of(self@),
    {
        match self {
            Command::Patch { svd_file } => Call::Patch { svd_file: svd_file.clone() },
            Command::Makedeps { yaml_file, deps_file } => Call::Makedeps {
                yaml_file: yaml_file.clone(),
                deps_file: deps_file.clone(),
            },
            Command::Interrupts { svd_file, no_gaps } => Call::Interrupts {
                svd_file: svd_file.clone(),
                show_gaps: !*no_gaps,
            },
            Command::Mmap { svd_file } => Call::Mmap { svd_file: svd_file.clone() },
        }
    }

    /// Invokes the one collaborator operation this command maps to and
    /// passes its outcome through unchanged: the collaborator's own side
    /// effects and failures are opaque here, so nothing more is promised
    /// of the result. On the inputs named in the wrappers' comments the
    /// collaborators abort the process instead of returning a failure.
    pub fn run(&self) -> Result<(), anyhow::Error> {
        let call = self.target();
        execute_call(&call)
    }
}

/// Performs the given collaborator call: each `Call` variant invokes the
/// operation of the same name, with exactly that variant's fields.
fn execute_call(call: &Call) -> Result<(), anyhow::Error> {
    match call {
        Call::Patch { svd_file } => apply_patch(svd_file),
        Call::Makedeps { yaml_file, deps_file } => write_makedeps(yaml_file, deps_file),
        Call::Interrupts { svd_file, show_gaps } => list_interrupts(svd_file, *show_gaps),
        Call::Mmap { svd_file } => render_memory_map(svd_file),
    }
}

/// Law: dispatch is exhaustive and exclusive — every command maps to the
/// call of the operation of the same name, carrying exactly that variant's
/// fields (with `show_gaps` the negation of `no_gaps`), and to no other.
pub proof fn lemma_dispatch_exhaustive_exclusive(c: CommandView)
    ensures
        c matches CommandView::Patch { svd_file } ==> call_of(c) == (CallView::Patch {
            svd_file,
        }),
        c matches CommandView::Makedeps { yaml_file, deps_file } ==> call_of(c)
            == (CallView::Makedeps { yaml_file, deps_file }),
        c matches CommandView::Interrupts { svd_file, no_gaps } ==> call_of(c)
            == (CallView::Interrupts { svd_file, show_gaps: !no_gaps }),
        c matches CommandView::Mmap { svd_file } ==> call_of(c) == (CallView::Mmap { svd_file }),
        c is Patch <==> call_of(c) is Patch,
        c is Makedeps <==> call_of(c) is Makedeps,
        c is Interrupts <==> call_of(c) is Interrupts,
        c is Mmap <==> call_of(c) is Mmap,
{
}

/// Law: the `interrupts` flag inversion. When `--no-gaps` is omitted the
/// parsed command has `no_gaps == false` and dispatches with
/// `show_gaps == true`; with the flag present it dispatches with
/// `show_gaps == false`.
pub proof fn lemma_no_gaps_default_inversion(svd: Seq<char>)
    requires
        !crate::cli::spec_flag_like(svd),
    ensures
        crate::cli::spec_parse(seq!["interrupts"@, svd]) matches Some(c) && call_of(c)
            == (CallView::Interrupts { svd_file: svd, show_gaps: true }),
        crate::cli::spec_parse(seq!["interrupts"@, "--no-gaps"@, svd]) matches Some(c) && call_of(
            c,
        ) == (CallView::Interrupts { svd_file: svd, show_gaps: false }),
{
    reveal_strlit("patch");
    reveal_strlit("makedeps");
    reveal_strlit("interrupts");
    reveal_strlit("mmap");
    reveal_strlit("--no-gaps");
    crate::cli::lemma_command_tokens_distinct();
    let bare: Seq<Seq<char>> = seq!["interrupts"@, svd];
    assert(bare.len() == 2 && bare[0] == "interrupts"@ && bare[1] == svd);
    assert(crate::cli::spec_parse(bare) == Some(
        CommandView::Interrupts { svd_file: svd, no_gaps: false },
    ));
    let flagged: Seq<Seq<char>> = seq!["interrupts"@, "--no-gaps"@, svd];
    assert(flagged.len() == 3 && flagged[0] == "interrupts"@ && flagged[1] == "--no-gaps"@
        && flagged[2] == svd);
    assert(crate::cli::spec_parse(flagged) == Some(
        CommandView::Interrupts { svd_file: svd, no_gaps: true },
    ));
}

/// The process exit status a dispatch outcome maps to: 0 on success, 1 on
/// any collaborator failure.
pub fn exit_code(outcome: &Result<(), anyhow::Error>) -> (code: i32)
    ensures
        code == (if outcome is Ok { 0i32 } else { 1i32 }),
{
    match outcome {
        Ok(_) => 0i32,
        Err(_) => 1i32,
    }
}

} // verus!
