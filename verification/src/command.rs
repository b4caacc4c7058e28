//! The `shim` command: what was asked for, and carrying it out.

use vstd::prelude::*;
use crate::autoshim::{autoshim, conclusion, project_to_scan, scan, ScanRoot, ScanRootView};
use crate::context::{Context, ContextView, Project, ProjectView};
use crate::error::{
    AutoshimError, AutoshimErrorView, ErrorClass, ResolveError, ShimError, ShimErrorView,
};
use crate::listing::{is_listing, line_views, list, ShimInfo, ShimInfoView};
use crate::registry::{
    create, create_outcome, delete, delete_outcome, entries_after_create, entries_after_delete,
    ShimRegistry,
};

verus! {

/// The words and switches of a command line, as they were found.
#[derive(Debug, PartialEq, Eq)]
pub struct Args {
    pub arg_path: Option<String>,
    pub arg_shimname: String,
    pub cmd_auto: bool,
    pub cmd_create: bool,
    pub cmd_delete: bool,
    pub cmd_list: bool,
    pub flag_help: bool,
    pub flag_verbose: bool,
}

/// What an [`Args`] holds.
pub struct ArgsView {
    pub arg_path: Option<Seq<char>>,
    pub arg_shimname: Seq<char>,
    pub cmd_auto: bool,
    pub cmd_create: bool,
    pub cmd_delete: bool,
    pub cmd_list: bool,
    pub flag_help: bool,
    pub flag_verbose: bool,
}

/// The characters of an optional string.
pub open spec fn optional_text(text: Option<String>) -> Option<Seq<char>> {
    match text {
        Some(t) => Some(t@),
        None => None,
    }
}

impl View for Args {
    type V = ArgsView;

    open spec fn view(&self) -> ArgsView {
        ArgsView {
            arg_path: optional_text(self.arg_path),
            arg_shimname: self.arg_shimname@,
            cmd_auto: self.cmd_auto,
            cmd_create: self.cmd_create,
            cmd_delete: self.cmd_delete,
            cmd_list: self.cmd_list,
            flag_help: self.flag_help,
            flag_verbose: self.flag_verbose,
        }
    }
}

/// Copies an optional string.
fn clone_optional_text(text: &Option<String>) -> (copy: Option<String>)
    ensures
        optional_text(copy) == optional_text(*text),
{
    match text {
        Some(t) => Some(t.clone()),
        None => None,
    }
}

impl Clone for Args {
    fn clone(&self) -> (copy: Args)
        ensures
            copy@ == self@,
    {
        Args {
            arg_path: clone_optional_text(&self.arg_path),
            arg_shimname: self.arg_shimname.clone(),
            cmd_auto: self.cmd_auto,
            cmd_create: self.cmd_create,
            cmd_delete: self.cmd_delete,
            cmd_list: self.cmd_list,
            flag_help: self.flag_help,
            flag_verbose: self.flag_verbose,
        }
    }
}

/// A `shim` command. The `bool` of a variant says whether verbose output was
/// asked for.
#[derive(Debug, PartialEq, Eq)]
pub enum Shim {
    /// Show how the command is used.
    Help,
    /// List the registered shims.
    List(bool),
    /// Register the shim of this name.
    Create(String, bool),
    /// Remove the shim of this name.
    Delete(String, bool),
    /// Shim the binaries of the project at this path, or of the current
    /// project where no path is given.
    Auto(Option<String>, bool),
}

/// What a [`Shim`] holds.
pub enum ShimView {
    Help,
    List(bool),
    Create(Seq<char>, bool),
    Delete(Seq<char>, bool),
    Auto(Option<Seq<char>>, bool),
}

impl View for Shim {
    type V = ShimView;

    open spec fn view(&self) -> ShimView {
        match self {
            Shim::Help => ShimView::Help,
            Shim::List(verbose) => ShimView::List(*verbose),
            Shim::Create(name, verbose) => ShimView::Create(name@, *verbose),
            Shim::Delete(name, verbose) => ShimView::Delete(name@, *verbose),
            Shim::Auto(path, verbose) => ShimView::Auto(optional_text(*path), *verbose),
        }
    }
}

impl Clone for Shim {
    fn clone(&self) -> (copy: Shim)
        ensures
            copy@ == self@,
    {
        match self {
            Shim::Help => Shim::Help,
            Shim::List(verbose) => Shim::List(*verbose),
            Shim::Create(name, verbose) => Shim::Create(name.clone(), *verbose),
            Shim::Delete(name, verbose) => Shim::Delete(name.clone(), *verbose),
            Shim::Auto(path, verbose) => Shim::Auto(clone_optional_text(path), *verbose),
        }
    }
}

/// The command that a command line asks for. A call for help comes before
/// everything; then the first of `auto`, `create`, `delete` and `list` that is
/// set decides; a line that sets none asks for help.
pub open spec fn parsed(args: ArgsView) -> ShimView {
    if args.flag_help {
        ShimView::Help
    } else if args.cmd_auto {
        ShimView::Auto(args.arg_path, args.flag_verbose)
    } else if args.cmd_create {
        ShimView::Create(args.arg_shimname, args.flag_verbose)
    } else if args.cmd_delete {
        ShimView::Delete(args.arg_shimname, args.flag_verbose)
    } else if args.cmd_list {
        ShimView::List(args.flag_verbose)
    } else {
        ShimView::Help
    }
}

/// What a command that went well leaves to show.
#[derive(Debug, PartialEq, Eq)]
pub enum Report {
    /// How the command is used.
    Usage,
    /// The lines of a listing.
    Listing(Vec<ShimInfo>),
    /// Nothing.
    Done,
}

/// What a [`Report`] holds.
pub enum ReportView {
    Usage,
    Listing(Seq<ShimInfoView>),
    Done,
}

impl View for Report {
    type V = ReportView;

    open spec fn view(&self) -> ReportView {
        match self {
            Report::Usage => ReportView::Usage,
            Report::Listing(lines) => ReportView::Listing(line_views(lines@)),
            Report::Done => ReportView::Done,
        }
    }
}

/// Why a command failed.
#[derive(Debug, PartialEq, Eq)]
pub enum CommandError {
    /// A shim could not be created or deleted.
    Shim(ShimError),
    /// The binaries of a project could not all be shimmed.
    Autoshim(AutoshimError),
    /// A shim of a listing could not be resolved.
    Resolve(ResolveError),
}

/// What a [`CommandError`] holds.
pub enum CommandErrorView {
    Shim(ShimErrorView),
    Autoshim(AutoshimErrorView),
    Resolve(ResolveError),
}

impl View for CommandError {
    type V = CommandErrorView;

    open spec fn view(&self) -> CommandErrorView {
        match self {
            CommandError::Shim(e) => CommandErrorView::Shim(e@),
            CommandError::Autoshim(e) => CommandErrorView::Autoshim(e@),
            CommandError::Resolve(e) => CommandErrorView::Resolve(*e),
        }
    }
}

impl CommandErrorView {
    /// The class of the failure.
    pub open spec fn class(self) -> ErrorClass {
        match self {
            CommandErrorView::Shim(_) => ErrorClass::FileSystemError,
            CommandErrorView::Autoshim(e) => e.class(),
            CommandErrorView::Resolve(_) => ErrorClass::UnresolvedInfrastructureError,
        }
    }
}

impl CommandError {
    /// The class of the failure.
    pub fn class(&self) -> (class: ErrorClass)
        ensures
            class == self@.class(),
    {
        match self {
            CommandError::Shim(e) => e.class(),
            CommandError::Autoshim(e) => e.class(),
            CommandError::Resolve(e) => e.class(),
        }
    }
}

/// The value of the outcome of a command.
pub open spec fn command_outcome_view(outcome: Result<Report, CommandError>) -> Result<
    ReportView,
    CommandErrorView,
> {
    match outcome {
        Ok(report) => Ok(report@),
        Err(e) => Err(e@),
    }
}

/// The root that an `auto` command scans: the path it names, with the
/// project found there, or none where it names no path.
pub open spec fn root_of(path: Option<Seq<char>>, found: Option<ProjectView>) -> Option<
    ScanRootView,
> {
    match path {
        Some(path) => Some(ScanRootView { path, project: found }),
        None => None,
    }
}

/// Whether carrying out `command` on the registry `before` in the context
/// `ctx` leaves the registry `after` and ends in `outcome`. `found` is the
/// project at the path that an `auto` command names.
pub open spec fn carried_out(
    command: ShimView,
    before: Seq<Seq<char>>,
    ctx: ContextView,
    found: Option<ProjectView>,
    after: Seq<Seq<char>>,
    outcome: Result<ReportView, CommandErrorView>,
) -> bool {
    match command {
        ShimView::Help => after == before && outcome == Ok::<ReportView, CommandErrorView>(
            ReportView::Usage,
        ),
        ShimView::List(verbose) => {
            &&& after == before
            &&& match outcome {
                Ok(ReportView::Listing(lines)) => is_listing(before, ctx, verbose, Ok(lines)),
                Err(CommandErrorView::Resolve(e)) => is_listing(before, ctx, verbose, Err(e)),
                _ => false,
            }
        },
        ShimView::Create(name, _) => {
            &&& after == entries_after_create(before, name)
            &&& outcome == match create_outcome(before, name) {
                Ok(()) => Ok::<ReportView, CommandErrorView>(ReportView::Done),
                Err(e) => Err::<ReportView, CommandErrorView>(CommandErrorView::Shim(e)),
            }
        },
        ShimView::Delete(name, _) => {
            &&& after == entries_after_delete(before, name)
            &&& outcome == match delete_outcome(before, name) {
                Ok(()) => Ok::<ReportView, CommandErrorView>(ReportView::Done),
                Err(e) => Err::<ReportView, CommandErrorView>(CommandErrorView::Shim(e)),
            }
        },
        ShimView::Auto(path, _) => match project_to_scan(ctx, root_of(path, found)) {
            Ok(project) => {
                &&& after == scan(before, project.binaries).0
                &&& outcome == match conclusion(scan(before, project.binaries).1) {
                    Ok(()) => Ok::<ReportView, CommandErrorView>(ReportView::Done),
                    Err(e) => Err::<ReportView, CommandErrorView>(CommandErrorView::Autoshim(e)),
                }
            },
            Err(e) => {
                &&& after == before
                &&& outcome == Err::<ReportView, CommandErrorView>(CommandErrorView::Autoshim(e))
            },
        },
    }
}

impl Shim {
    /// The command that shows how `shim` is used.
    pub fn help() -> (command: Shim)
        ensures
            command@ == ShimView::Help,
    {
        Shim::Help
    }

    /// The command that a command line asks for.
    pub fn parse(args: Args) -> (command: Shim)
        ensures
            command@ == parsed(args@),
    {
        if args.flag_help {
            Shim::Help
        } else if args.cmd_auto {
            Shim::Auto(args.arg_path, args.flag_verbose)
        } else if args.cmd_create {
            Shim::Create(args.arg_shimname, args.flag_verbose)
        } else if args.cmd_delete {
            Shim::Delete(args.arg_shimname, args.flag_verbose)
        } else if args.cmd_list {
            Shim::List(args.flag_verbose)
        } else {
            Shim::Help
        }
    }

    /// Carries the command out on `registry` in the context `ctx`. `found` is
    /// the project at the path that an `auto` command names, and is not read
    /// otherwise.
    pub fn run(
        self,
        registry: &mut ShimRegistry,
        ctx: &Context,
        found: Option<Project>,
    ) -> (outcome: Result<Report, CommandError>)
        requires
            old(registry).wf(),
        ensures
            final(registry).wf(),
            carried_out(
                self@,
                old(registry)@,
                ctx@,
                match found {
                    Some(p) => Some(p@),
                    None => None,
                },
                final(registry)@,
                command_outcome_view(outcome),
            ),
    {
        match self {
            Shim::Help => Ok(Report::Usage),
            Shim::List(verbose) => match list(registry, ctx, verbose) {
                Ok(lines) => Ok(Report::Listing(lines)),
                Err(e) => Err(CommandError::Resolve(e)),
            },
            Shim::Create(shim_name, _) => match create(registry, shim_name) {
                Ok(()) => Ok(Report::Done),
                Err(e) => Err(CommandError::Shim(e)),
            },
            Shim::Delete(shim_name, _) => match delete(registry, shim_name) {
                Ok(()) => Ok(Report::Done),
                Err(e) => Err(CommandError::Shim(e)),
            },
            Shim::Auto(path, _) => {
                let root = match path {
                    Some(path) => Some(ScanRoot { path, project: found }),
                    None => None,
                };
                match autoshim(registry, ctx, root) {
                    Ok(()) => Ok(Report::Done),
                    Err(e) => Err(CommandError::Autoshim(e)),
                }
            },
        }
    }
}

} // verus!
