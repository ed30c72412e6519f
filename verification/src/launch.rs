use vstd::prelude::*;
use crate::arch::ExecutableClass;
use crate::template::{routine, syscall_routine};
use crate::text::{decimal, decimal_string, strip_newlines, without_newlines};

verus! {

/// Everything the excluded command-line layer hands the core: the target
/// program, the environment pairs (keys unique, a duplicate is a caller
/// error), whether to run under the debugger, and optional trailing text
/// for the debugger itself. Immutable once constructed.
pub struct LaunchSpec {
    pub program: String,
    pub env: Vec<(String, String)>,
    pub debug: bool,
    pub gdb_args: Option<String>,
}

impl LaunchSpec {
    /// The environment pairs as mathematical values.
    pub open spec fn env_view(&self) -> Seq<(Seq<char>, Seq<char>)> {
        self.env@.map_values(|p: (String, String)| (p.0@, p.1@))
    }

    /// The trailing debugger text as a mathematical value.
    pub open spec fn gdb_args_view(&self) -> Option<Seq<char>> {
        match self.gdb_args {
            Some(t) => Some(t@),
            None => None,
        }
    }
}

/// The texts of an argument list.
pub open spec fn arg_views(args: Seq<String>) -> Seq<Seq<char>> {
    args.map_values(|a: String| a@)
}

/// The debugger directive that sets one variable in the debuggee's
/// environment before it runs.
pub open spec fn set_env_directive(k: Seq<char>, v: Seq<char>) -> Seq<char> {
    "set env "@ + k + "="@ + v
}

/// One `-ex` directive per environment pair, in the pairs' order.
pub open spec fn env_directives(env: Seq<(Seq<char>, Seq<char>)>) -> Seq<Seq<char>>
    decreases env.len(),
{
    if env.len() == 0 {
        Seq::empty()
    } else {
        env_directives(env.drop_last()) + seq![
            "-ex"@,
            set_env_directive(env.last().0, env.last().1),
        ]
    }
}

/// The injected fragment: one integer declaration binding the live
/// descriptor's numeric value, followed immediately by the
/// architecture-matched routine with its newlines stripped, delivered as
/// one compiled unit.
pub open spec fn compile_directive(fd: nat, class: ExecutableClass) -> Seq<char> {
    "compile code -raw -- int fd = "@ + decimal(fd) + ";"@ + without_newlines(routine(class))
}

/// The debugger's whole argument list (everything after the debugger path):
/// a directive per environment pair, a directive to start the debuggee but
/// halt at its entry point, the directive compiling the injected fragment
/// into the debuggee's raw address space, the target program, and — only
/// when trailing debugger text was supplied — a `--` separator and that
/// text.
pub open spec fn gdb_invocation_view(
    env: Seq<(Seq<char>, Seq<char>)>,
    program: Seq<char>,
    fd: nat,
    class: ExecutableClass,
    extra: Option<Seq<char>>,
) -> Seq<Seq<char>> {
    env_directives(env) + seq!["-ex"@, "start"@, "-ex"@, compile_directive(fd, class), program]
        + (match extra {
        Some(t) => seq!["--"@, t],
        None => Seq::empty(),
    })
}

/// Builds the debugger invocation for the instrumented path. The caller
/// resolves the debugger executable itself — and fails fatally before
/// touching any descriptor state when it is not installed — then replaces
/// the process image with the debugger run on exactly these arguments.
pub fn gdb_invocation(launch: &LaunchSpec, fd: i32, class: ExecutableClass) -> (r: Vec<String>)
    requires
        fd >= 0,  // a connected descriptor is never negative
    ensures
        arg_views(r@) == gdb_invocation_view(
            launch.env_view(),
            launch.program@,
            fd as nat,
            class,
            launch.gdb_args_view(),
        ),
{
    let ghost env_view = launch.env_view();
    let mut args: Vec<String> = Vec::new();
    let n = launch.env.len();
    let mut i: usize = 0;
    while i < n
        invariant
            i <= n,
            n == launch.env.len(),
            env_view == launch.env_view(),
            arg_views(args@) == env_directives(env_view.take(i as int)),
        decreases n - i,
    {
        args.push("-ex".to_owned());
        let pair = &launch.env[i];
        let mut d = "set env ".to_owned();
        d.append(pair.0.as_str());
        d.append("=");
        d.append(pair.1.as_str());
        args.push(d);
        proof {
            assert(env_view.take(i + 1).drop_last() =~= env_view.take(i as int));
            assert(env_view.take(i + 1).last() == env_view[i as int]);
            assert(arg_views(args@) =~= env_directives(env_view.take(i + 1)));
        }
        i = i + 1;
    }
    proof {
        assert(env_view.take(n as int) =~= env_view);
    }
    args.push("-ex".to_owned());
    args.push("start".to_owned());
    args.push("-ex".to_owned());
    let routine_text = syscall_routine(class);
    let stripped = strip_newlines(routine_text.as_str());
    let mut fragment = "compile code -raw -- int fd = ".to_owned();
    let fd_text = decimal_string(fd as u64);
    fragment.append(fd_text.as_str());
    fragment.append(";");
    fragment.append(stripped.as_str());
    args.push(fragment);
    args.push(launch.program.clone());
    match &launch.gdb_args {
        Some(extra) => {
            args.push("--".to_owned());
            args.push(extra.clone());
        },
        None => {},
    }
    proof {
        assert(arg_views(args@) =~= gdb_invocation_view(
            launch.env_view(),
            launch.program@,
            fd as nat,
            class,
            launch.gdb_args_view(),
        ));
    }
    args
}

} // verus!
