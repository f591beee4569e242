//! The command line of the component runtime host:
//!
//! ```text
//! run-u64 <component> <function> <arg> [workers] [runtime-import]
//! spawn-link-u64 <supervisor> <supervisor-function> <child> <child-function> <arg> <retries> <child-init-function|-> <child-init-arg> [runtime-import] [runtime-function]
//! ```
//!
//! `supervise-u64` is accepted as another name of `spawn-link-u64`.

use vstd::prelude::*;
use vstd::string::*;
use vstd::utf8::*;
use crate::number::{
    lemma_parse_unsigned_bounded, parse_u32, parse_u64, parse_usize, spec_parse_unsigned, IntErrorKind,
};
use crate::text::str_eq;

verus! {

/// The runtime import that a `run-u64` component gets when none is named.
pub const DEFAULT_RUNTIME_IMPORT: &'static str = "rust-wasm-runtime:process/runtime";
/// The runtime import that a supervisor gets when none is named.
pub const DEFAULT_SUPERVISOR_IMPORT: &'static str = "rust-wasm-runtime:supervisor/runtime";
/// The function of the supervisor import when none is named.
pub const DEFAULT_SUPERVISOR_IMPORT_FUNCTION: &'static str = "spawn-link";
/// The child init function that means "no init".
pub const NO_INIT: &'static str = "-";
/// The usage text of the host.
pub const USAGE: &'static str = "usage:\n  run-u64 <component> <function> <arg> [workers] [runtime-import]\n  spawn-link-u64 <supervisor> <supervisor-function> <child> <child-function> <arg> <retries> <child-init-function|-> <child-init-arg> [runtime-import] [runtime-function]";

/// Arguments of `run-u64`.
pub struct RunArgs {
    pub component_path: String,
    pub function: String,
    pub arg: u64,
    pub workers: usize,
    pub runtime_import: String,
}

/// An init export that each linked child runs before its function.
pub struct ChildInit {
    pub function: String,
    pub arg: u64,
}

/// Arguments of `spawn-link-u64`.
pub struct SpawnLinkArgs {
    pub supervisor_path: String,
    pub supervisor_function: String,
    pub child_path: String,
    pub child_function: String,
    pub arg: u64,
    pub retries: u32,
    pub child_init: Option<ChildInit>,
    pub runtime_import: String,
    pub runtime_function: String,
}

/// A parsed command line.
pub enum Command {
    Run(RunArgs),
    SpawnLink(SpawnLinkArgs),
}

/// Why a command line was refused.
pub enum ArgError {
    /// No known command was given.
    Usage,
    /// A required argument is missing.
    Missing { name: String },
    /// An argument is not a number of the expected type.
    Invalid { name: String, value: String, kind: IntErrorKind },
}

/// The contents of `RunArgs`.
pub struct RunArgsView {
    pub component_path: Seq<char>,
    pub function: Seq<char>,
    pub arg: u64,
    pub workers: usize,
    pub runtime_import: Seq<char>,
}

/// The contents of `ChildInit`.
pub struct ChildInitView {
    pub function: Seq<char>,
    pub arg: u64,
}

/// The contents of `SpawnLinkArgs`.
pub struct SpawnLinkArgsView {
    pub supervisor_path: Seq<char>,
    pub supervisor_function: Seq<char>,
    pub child_path: Seq<char>,
    pub child_function: Seq<char>,
    pub arg: u64,
    pub retries: u32,
    pub child_init: Option<ChildInitView>,
    pub runtime_import: Seq<char>,
    pub runtime_function: Seq<char>,
}

/// The contents of `Command`.
pub enum CommandView {
    Run(RunArgsView),
    SpawnLink(SpawnLinkArgsView),
}

/// The contents of `ArgError`.
pub enum ArgErrorView {
    Usage,
    Missing { name: Seq<char> },
    Invalid { name: Seq<char>, value: Seq<char>, kind: IntErrorKind },
}

impl View for RunArgs {
    type V = RunArgsView;

    open spec fn view(&self) -> RunArgsView {
        RunArgsView {
            component_path: self.component_path@,
            function: self.function@,
            arg: self.arg,
            workers: self.workers,
            runtime_import: self.runtime_import@,
        }
    }
}

impl View for ChildInit {
    type V = ChildInitView;

    open spec fn view(&self) -> ChildInitView {
        ChildInitView { function: self.function@, arg: self.arg }
    }
}

impl View for SpawnLinkArgs {
    type V = SpawnLinkArgsView;

    open spec fn view(&self) -> SpawnLinkArgsView {
        SpawnLinkArgsView {
            supervisor_path: self.supervisor_path@,
            supervisor_function: self.supervisor_function@,
            child_path: self.child_path@,
            child_function: self.child_function@,
            arg: self.arg,
            retries: self.retries,
            child_init: match self.child_init {
                Some(init) => Some(init@),
                None => None,
            },
            runtime_import: self.runtime_import@,
            runtime_function: self.runtime_function@,
        }
    }
}

impl View for Command {
    type V = CommandView;

    open spec fn view(&self) -> CommandView {
        match self {
            Command::Run(args) => CommandView::Run(args@),
            Command::SpawnLink(args) => CommandView::SpawnLink(args@),
        }
    }
}

impl View for ArgError {
    type V = ArgErrorView;

    open spec fn view(&self) -> ArgErrorView {
        match self {
            ArgError::Usage => ArgErrorView::Usage,
            ArgError::Missing { name } => ArgErrorView::Missing { name: name@ },
            ArgError::Invalid { name, value, kind } => ArgErrorView::Invalid {
                name: name@,
                value: value@,
                kind: *kind,
            },
        }
    }
}

/// The texts of a list of arguments.
pub open spec fn arg_texts(args: Seq<String>) -> Seq<Seq<char>> {
    args.map_values(|s: String| s@)
}

/// The view of a parse result.
pub open spec fn result_view<T: View>(r: Result<T, ArgError>) -> Result<T::V, ArgErrorView> {
    match r {
        Ok(v) => Ok(v@),
        Err(e) => Err(e@),
    }
}

/// Argument `index`, or a missing-argument error naming `name`.
pub open spec fn spec_arg_string(args: Seq<Seq<char>>, index: int, name: Seq<char>) -> Result<Seq<char>, ArgErrorView> {
    if 0 <= index < args.len() {
        Ok(args[index])
    } else {
        Err(ArgErrorView::Missing { name })
    }
}

/// `value` read as a number up to `max`, or an invalid-value error naming
/// `name`.
pub open spec fn spec_parse_named(value: Seq<char>, name: Seq<char>, max: nat) -> Result<nat, ArgErrorView> {
    match spec_parse_unsigned(encode_utf8(value), max) {
        Ok(n) => Ok(n),
        Err(kind) => Err(ArgErrorView::Invalid { name, value, kind }),
    }
}

/// Argument `index` read as a number up to `max`.
pub open spec fn spec_arg_parse(args: Seq<Seq<char>>, index: int, name: Seq<char>, max: nat) -> Result<nat, ArgErrorView> {
    if 0 <= index < args.len() {
        spec_parse_named(args[index], name, max)
    } else {
        Err(ArgErrorView::Missing { name })
    }
}

/// Argument `index` when it is there, `default` otherwise.
pub open spec fn spec_arg_or(args: Seq<Seq<char>>, index: int, default: Seq<char>) -> Seq<char> {
    if 0 <= index < args.len() {
        args[index]
    } else {
        default
    }
}

/// What `run-u64` makes of its arguments. A worker count that is absent
/// or 0 becomes `default_workers`.
pub open spec fn spec_parse_run_command(args: Seq<Seq<char>>, default_workers: usize) -> Result<CommandView, ArgErrorView> {
    match spec_arg_string(args, 0, "component"@) {
        Err(e) => Err(e),
        Ok(component_path) => match spec_arg_string(args, 1, "function"@) {
            Err(e) => Err(e),
            Ok(function) => match spec_arg_parse(args, 2, "arg"@, u64::MAX as nat) {
                Err(e) => Err(e),
                Ok(arg) => {
                    let workers: Result<nat, ArgErrorView> = if args.len() > 3 {
                        spec_parse_named(args[3], "workers"@, usize::MAX as nat)
                    } else {
                        Ok(0)
                    };
                    match workers {
                        Err(e) => Err(e),
                        Ok(w) => Ok(
                            CommandView::Run(
                                RunArgsView {
                                    component_path,
                                    function,
                                    arg: arg as u64,
                                    workers: if w > 0 {
                                        w as usize
                                    } else {
                                        default_workers
                                    },
                                    runtime_import: spec_arg_or(args, 4, DEFAULT_RUNTIME_IMPORT@),
                                },
                            ),
                        ),
                    }
                },
            },
        },
    }
}

/// What `spawn-link-u64` makes of its arguments. The child init argument
/// must be a number even when the init function is `-`, which means that
/// the child runs no init.
pub open spec fn spec_parse_spawn_link_command(args: Seq<Seq<char>>) -> Result<CommandView, ArgErrorView> {
    match spec_arg_string(args, 0, "supervisor"@) {
        Err(e) => Err(e),
        Ok(supervisor_path) => match spec_arg_string(args, 1, "supervisor-function"@) {
            Err(e) => Err(e),
            Ok(supervisor_function) => match spec_arg_string(args, 2, "child"@) {
                Err(e) => Err(e),
                Ok(child_path) => match spec_arg_string(args, 3, "child-function"@) {
                    Err(e) => Err(e),
                    Ok(child_function) => match spec_arg_parse(args, 4, "arg"@, u64::MAX as nat) {
                        Err(e) => Err(e),
                        Ok(arg) => match spec_arg_parse(args, 5, "retries"@, u32::MAX as nat) {
                            Err(e) => Err(e),
                            Ok(retries) => match spec_arg_string(args, 6, "child-init-function"@) {
                                Err(e) => Err(e),
                                Ok(init_function) => match spec_arg_parse(
                                    args,
                                    7,
                                    "child-init-arg"@,
                                    u64::MAX as nat,
                                ) {
                                    Err(e) => Err(e),
                                    Ok(init_arg) => Ok(
                                        CommandView::SpawnLink(
                                            SpawnLinkArgsView {
                                                supervisor_path,
                                                supervisor_function,
                                                child_path,
                                                child_function,
                                                arg: arg as u64,
                                                retries: retries as u32,
                                                child_init: if init_function != NO_INIT@ {
                                                    Some(
                                                        ChildInitView {
                                                            function: init_function,
                                                            arg: init_arg as u64,
                                                        },
                                                    )
                                                } else {
                                                    None
                                                },
                                                runtime_import: spec_arg_or(
                                                    args,
                                                    8,
                                                    DEFAULT_SUPERVISOR_IMPORT@,
                                                ),
                                                runtime_function: spec_arg_or(
                                                    args,
                                                    9,
                                                    DEFAULT_SUPERVISOR_IMPORT_FUNCTION@,
                                                ),
                                            },
                                        ),
                                    ),
                                },
                            },
                        },
                    },
                },
            },
        },
    }
}

/// What the host makes of its command line (without the program name).
pub open spec fn spec_parse_command(args: Seq<Seq<char>>, default_workers: usize) -> Result<CommandView, ArgErrorView> {
    if args.len() > 0 && args[0] == "run-u64"@ {
        spec_parse_run_command(args.drop_first(), default_workers)
    } else if args.len() > 0 && (args[0] == "spawn-link-u64"@ || args[0] == "supervise-u64"@) {
        spec_parse_spawn_link_command(args.drop_first())
    } else {
        Err(ArgErrorView::Usage)
    }
}

/// A `run-u64` command line that parses gives the component, function and
/// argument where they stand; a worker count that is given and spells a
/// number `w >= 1` is taken as it is, and only an absent worker count or a
/// count of 0 becomes `default_workers`; a missing runtime import becomes
/// the default one.
pub proof fn lemma_run_command_fields(args: Seq<Seq<char>>, default_workers: usize)
    requires
        default_workers >= 1,
        args.len() >= 1,
        args[0] == "run-u64"@,
        spec_parse_command(args, default_workers) is Ok,
    ensures
        spec_parse_command(args, default_workers) matches Ok(CommandView::Run(r)) && {
            &&& args.len() >= 4
            &&& r.component_path == args[1]
            &&& r.function == args[2]
            &&& spec_parse_unsigned(encode_utf8(args[3]), u64::MAX as nat) == Ok::<nat, IntErrorKind>(r.arg as nat)
            &&& (args.len() > 4 ==> spec_parse_unsigned(encode_utf8(args[4]), usize::MAX as nat) is Ok)
            &&& (args.len() > 4 ==> {
                let w = spec_parse_unsigned(encode_utf8(args[4]), usize::MAX as nat)->Ok_0;
                &&& (w >= 1 ==> r.workers == w)
                &&& (w == 0 ==> r.workers == default_workers)
            })
            &&& (args.len() <= 4 ==> r.workers == default_workers)
            &&& r.workers >= 1
            &&& r.runtime_import == (if args.len() > 5 {
                args[5]
            } else {
                DEFAULT_RUNTIME_IMPORT@
            })
        },
{
    reveal_strlit("run-u64");
    reveal_strlit("spawn-link-u64");
    reveal_strlit("supervise-u64");
    assert(args[0] != "spawn-link-u64"@ && args[0] != "supervise-u64"@) by {
        assert(args[0].len() != "spawn-link-u64"@.len());
        assert(args[0][0] != "supervise-u64"@[0]);
    }
    let rest = args.drop_first();
    assert(spec_parse_command(args, default_workers) == spec_parse_run_command(rest, default_workers));
    assert(rest.len() >= 3);
    assert(rest[0] == args[1] && rest[1] == args[2] && rest[2] == args[3]);
    assert(spec_arg_string(rest, 0, "component"@) == Ok::<Seq<char>, ArgErrorView>(args[1]));
    assert(spec_arg_string(rest, 1, "function"@) == Ok::<Seq<char>, ArgErrorView>(args[2]));
    assert(spec_arg_parse(rest, 2, "arg"@, u64::MAX as nat) is Ok);
    let a = spec_arg_parse(rest, 2, "arg"@, u64::MAX as nat)->Ok_0;
    assert(spec_parse_unsigned(encode_utf8(args[3]), u64::MAX as nat) == Ok::<nat, IntErrorKind>(a));
    lemma_parse_unsigned_bounded(encode_utf8(args[3]), u64::MAX as nat);
    if args.len() > 4 {
        lemma_parse_unsigned_bounded(encode_utf8(args[4]), usize::MAX as nat);
        assert(rest[3] == args[4]);
        assert(spec_parse_named(rest[3], "workers"@, usize::MAX as nat) is Ok);
    }
    if args.len() > 5 {
        assert(rest[4] == args[5]);
    }
}

/// A `spawn-link-u64` (or `supervise-u64`) command line that parses gives
/// each path and function where it stands and the numbers they spell; the
/// child runs an init export exactly when the init function is not `-`;
/// missing runtime import and function become the defaults.
pub proof fn lemma_spawn_link_command_fields(args: Seq<Seq<char>>, default_workers: usize)
    requires
        default_workers >= 1,
        args.len() >= 1,
        args[0] == "spawn-link-u64"@ || args[0] == "supervise-u64"@,
        spec_parse_command(args, default_workers) is Ok,
    ensures
        spec_parse_command(args, default_workers) matches Ok(CommandView::SpawnLink(a)) && {
            &&& args.len() >= 9
            &&& a.supervisor_path == args[1]
            &&& a.supervisor_function == args[2]
            &&& a.child_path == args[3]
            &&& a.child_function == args[4]
            &&& spec_parse_unsigned(encode_utf8(args[5]), u64::MAX as nat) == Ok::<nat, IntErrorKind>(a.arg as nat)
            &&& spec_parse_unsigned(encode_utf8(args[6]), u32::MAX as nat) == Ok::<nat, IntErrorKind>(
                a.retries as nat,
            )
            &&& spec_parse_unsigned(encode_utf8(args[8]), u64::MAX as nat) is Ok
            &&& (args[7] == NO_INIT@ <==> a.child_init is None)
            &&& (a.child_init matches Some(init) ==> init.function == args[7] && spec_parse_unsigned(
                encode_utf8(args[8]),
                u64::MAX as nat,
            ) == Ok::<nat, IntErrorKind>(init.arg as nat))
            &&& a.runtime_import == (if args.len() > 9 {
                args[9]
            } else {
                DEFAULT_SUPERVISOR_IMPORT@
            })
            &&& a.runtime_function == (if args.len() > 10 {
                args[10]
            } else {
                DEFAULT_SUPERVISOR_IMPORT_FUNCTION@
            })
        },
{
    reveal_strlit("run-u64");
    reveal_strlit("spawn-link-u64");
    reveal_strlit("supervise-u64");
    assert(args[0] != "run-u64"@) by {
        if args[0] == "spawn-link-u64"@ {
            assert(args[0].len() != "run-u64"@.len());
        } else {
            assert(args[0][0] != "run-u64"@[0]);
        }
    }
    let rest = args.drop_first();
    assert(spec_parse_command(args, default_workers) == spec_parse_spawn_link_command(rest));
    assert(rest.len() >= 8);
    assert(forall|i: int| 0 <= i < rest.len() ==> rest[i] == args[i + 1]);
    assert(spec_arg_parse(rest, 4, "arg"@, u64::MAX as nat) is Ok);
    assert(spec_arg_parse(rest, 5, "retries"@, u32::MAX as nat) is Ok);
    assert(spec_arg_parse(rest, 7, "child-init-arg"@, u64::MAX as nat) is Ok);
    lemma_parse_unsigned_bounded(encode_utf8(args[5]), u64::MAX as nat);
    lemma_parse_unsigned_bounded(encode_utf8(args[6]), u32::MAX as nat);
    lemma_parse_unsigned_bounded(encode_utf8(args[8]), u64::MAX as nat);
}

/// Only `run-u64`, `spawn-link-u64` and `supervise-u64` are commands: any
/// other first argument, or none, is answered with the usage.
pub proof fn lemma_unknown_command(args: Seq<Seq<char>>, default_workers: usize)
    ensures
        (args.len() == 0 || (args[0] != "run-u64"@ && args[0] != "spawn-link-u64"@ && args[0]
            != "supervise-u64"@)) <==> spec_parse_command(args, default_workers) == Err::<
            CommandView,
            ArgErrorView,
        >(ArgErrorView::Usage),
{
    if args.len() > 0 && (args[0] == "run-u64"@ || args[0] == "spawn-link-u64"@ || args[0] == "supervise-u64"@) {
        let rest = args.drop_first();
        if args[0] == "run-u64"@ {
            assert(spec_parse_command(args, default_workers) == spec_parse_run_command(rest, default_workers));
        } else {
            assert(spec_parse_command(args, default_workers) == spec_parse_spawn_link_command(rest));
        }
    }
}

/// Argument `index`, or a missing-argument error naming `name`.
pub fn arg_string(args: &[String], index: usize, name: &str) -> (result: Result<String, ArgError>)
    ensures
        result_view(result) == spec_arg_string(arg_texts(args@), index as int, name@),
{
    if index < args.len() {
        Ok(args[index].clone())
    } else {
        Err(ArgError::Missing { name: name.to_owned() })
    }
}

/// A path argument, as the text that names it.
pub fn arg_path(args: &[String], index: usize, name: &str) -> (result: Result<String, ArgError>)
    ensures
        result_view(result) == spec_arg_string(arg_texts(args@), index as int, name@),
{
    arg_string(args, index, name)
}

/// The view of a numeric parse result.
pub open spec fn number_view<N>(r: Result<N, ArgError>, as_nat: spec_fn(N) -> nat) -> Result<nat, ArgErrorView> {
    match r {
        Ok(n) => Ok(as_nat(n)),
        Err(e) => Err(e@),
    }
}

/// Reads `value` as a `u64`, or an invalid-value error naming `name`.
pub fn parse_named_u64(value: &str, name: &str) -> (result: Result<u64, ArgError>)
    ensures
        number_view(result, |n: u64| n as nat) == spec_parse_named(value@, name@, u64::MAX as nat),
{
    match parse_u64(value) {
        Ok(n) => Ok(n),
        Err(kind) => Err(ArgError::Invalid { name: name.to_owned(), value: value.to_owned(), kind }),
    }
}

/// Reads `value` as a `u32`, or an invalid-value error naming `name`.
pub fn parse_named_u32(value: &str, name: &str) -> (result: Result<u32, ArgError>)
    ensures
        number_view(result, |n: u32| n as nat) == spec_parse_named(value@, name@, u32::MAX as nat),
{
    match parse_u32(value) {
        Ok(n) => Ok(n),
        Err(kind) => Err(ArgError::Invalid { name: name.to_owned(), value: value.to_owned(), kind }),
    }
}

/// Reads `value` as a `usize`, or an invalid-value error naming `name`.
pub fn parse_named_usize(value: &str, name: &str) -> (result: Result<usize, ArgError>)
    ensures
        number_view(result, |n: usize| n as nat) == spec_parse_named(value@, name@, usize::MAX as nat),
{
    match parse_usize(value) {
        Ok(n) => Ok(n),
        Err(kind) => Err(ArgError::Invalid { name: name.to_owned(), value: value.to_owned(), kind }),
    }
}

/// Argument `index` read as a `u64`.
pub fn arg_parse_u64(args: &[String], index: usize, name: &str) -> (result: Result<u64, ArgError>)
    ensures
        number_view(result, |n: u64| n as nat) == spec_arg_parse(
            arg_texts(args@),
            index as int,
            name@,
            u64::MAX as nat,
        ),
{
    if index < args.len() {
        parse_named_u64(args[index].as_str(), name)
    } else {
        Err(ArgError::Missing { name: name.to_owned() })
    }
}

/// Argument `index` read as a `u32`.
pub fn arg_parse_u32(args: &[String], index: usize, name: &str) -> (result: Result<u32, ArgError>)
    ensures
        number_view(result, |n: u32| n as nat) == spec_arg_parse(
            arg_texts(args@),
            index as int,
            name@,
            u32::MAX as nat,
        ),
{
    if index < args.len() {
        parse_named_u32(args[index].as_str(), name)
    } else {
        Err(ArgError::Missing { name: name.to_owned() })
    }
}

/// Argument `index` when it is there, `default` otherwise.
fn arg_or(args: &[String], index: usize, default: &str) -> (text: String)
    ensures
        text@ == spec_arg_or(arg_texts(args@), index as int, default@),
{
    if index < args.len() {
        args[index].clone()
    } else {
        default.to_owned()
    }
}

/// Parses the arguments of `run-u64`; `default_workers` (at least 1, as
/// the machine's parallelism is) is the worker count used when none (or 0)
/// is given.
pub fn parse_run_command(args: &[String], default_workers: usize) -> (result: Result<Command, ArgError>)
    requires
        default_workers >= 1,
    ensures
        result_view(result) == spec_parse_run_command(arg_texts(args@), default_workers),
{
    let component_path = arg_path(args, 0, "component")?;
    let function = arg_string(args, 1, "function")?;
    let arg = arg_parse_u64(args, 2, "arg")?;
    let mut workers = default_workers;
    if args.len() > 3 {
        let given = parse_named_usize(args[3].as_str(), "workers")?;
        if given > 0 {
            workers = given;
        }
    }
    let runtime_import = arg_or(args, 4, DEFAULT_RUNTIME_IMPORT);
    Ok(Command::Run(RunArgs { component_path, function, arg, workers, runtime_import }))
}

/// Parses the arguments of `spawn-link-u64`.
pub fn parse_spawn_link_command(args: &[String]) -> (result: Result<Command, ArgError>)
    ensures
        result_view(result) == spec_parse_spawn_link_command(arg_texts(args@)),
{
    let supervisor_path = arg_path(args, 0, "supervisor")?;
    let supervisor_function = arg_string(args, 1, "supervisor-function")?;
    let child_path = arg_path(args, 2, "child")?;
    let child_function = arg_string(args, 3, "child-function")?;
    let arg = arg_parse_u64(args, 4, "arg")?;
    let retries = arg_parse_u32(args, 5, "retries")?;
    let init_function = arg_string(args, 6, "child-init-function")?;
    let init_arg = arg_parse_u64(args, 7, "child-init-arg")?;
    let runtime_import = arg_or(args, 8, DEFAULT_SUPERVISOR_IMPORT);
    let runtime_function = arg_or(args, 9, DEFAULT_SUPERVISOR_IMPORT_FUNCTION);
    let child_init = if !str_eq(init_function.as_str(), NO_INIT) {
        Some(ChildInit { function: init_function, arg: init_arg })
    } else {
        None
    };
    Ok(
        Command::SpawnLink(
            SpawnLinkArgs {
                supervisor_path,
                supervisor_function,
                child_path,
                child_function,
                arg,
                retries,
                child_init,
                runtime_import,
                runtime_function,
            },
        ),
    )
}

/// Parses the host's command line (without the program name);
/// `default_workers` is the worker count used when `run-u64` names none.
pub fn parse_command(args: &[String], default_workers: usize) -> (result: Result<Command, ArgError>)
    requires
        default_workers >= 1,
    ensures
        result_view(result) == spec_parse_command(arg_texts(args@), default_workers),
{
    let len = args.len();
    if len == 0 {
        return Err(ArgError::Usage);
    }
    let rest = &args[1..len];
    proof {
        assert(arg_texts(rest@) =~= arg_texts(args@).drop_first());
    }
    let first = args[0].as_str();
    if str_eq(first, "run-u64") {
        parse_run_command(rest, default_workers)
    } else if str_eq(first, "spawn-link-u64") || str_eq(first, "supervise-u64") {
        parse_spawn_link_command(rest)
    } else {
        Err(ArgError::Usage)
    }
}

/// What `Debug` prints for a string: the text quoted, with special
/// characters escaped.
pub uninterp spec fn str_debug_text(s: Seq<char>) -> Seq<char>;

/// Formats `s` with `{:?}` (`<str as Debug>::fmt`), which quotes it and
/// escapes special characters. The result is named `str_debug_text`.
#[verifier::external_body]
fn debug_text(s: &str) -> (text: String)
    ensures
        text@ == str_debug_text(s@),
{
    format!("{:?}", s)
}

/// The message of a refused command line.
pub open spec fn spec_arg_error_message(e: ArgErrorView) -> Seq<char> {
    match e {
        ArgErrorView::Usage => USAGE@,
        ArgErrorView::Missing { name } => "missing argument: "@ + name,
        ArgErrorView::Invalid { name, value, kind } => spec_invalid_value_message(
            name,
            str_debug_text(value),
            kind,
        ),
    }
}

/// The message of an invalid number: its argument's name, the value as
/// `Debug` quotes it, and why it is not a number.
pub open spec fn spec_invalid_value_message(name: Seq<char>, quoted: Seq<char>, kind: IntErrorKind) -> Seq<char> {
    "invalid "@ + name + " value "@ + quoted + ": "@ + kind.spec_description()
}

/// Writes the message of an invalid number, given the value already quoted.
pub fn invalid_value_message(name: &str, quoted: &str, kind: IntErrorKind) -> (text: String)
    ensures
        text@ == spec_invalid_value_message(name@, quoted@, kind),
{
    let mut text = String::from_str("invalid ");
    text.append(name);
    text.append(" value ");
    text.append(quoted);
    text.append(": ");
    text.append(kind.description());
    text
}

impl ArgError {
    /// Describes why the command line was refused.
    pub fn message(&self) -> (text: String)
        ensures
            text@ == spec_arg_error_message(self@),
    {
        match self {
            ArgError::Usage => String::from_str(USAGE),
            ArgError::Missing { name } => {
                let mut text = String::from_str("missing argument: ");
                text.append(name.as_str());
                text
            },
            ArgError::Invalid { name, value, kind } => {
                let quoted = debug_text(value.as_str());
                invalid_value_message(name.as_str(), quoted.as_str(), *kind)
            },
        }
    }
}

} // verus!
