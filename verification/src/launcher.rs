//! Launch specifications for the two roles: the exact candidate commands the
//! supervisor tries for the backend (project virtual-environment interpreter
//! first, when present, then the ordered interpreter fallbacks) and for the
//! frontend (the ordered package-manager invocations), together with the
//! probe endpoints. The driver spawns the candidates; it finds here exactly
//! what to spawn, in what directory, with which environment overrides.

use vstd::prelude::*;

use crate::resolver::Candidate;

verus! {

/// The endpoint probed for backend liveness.
pub fn backend_probe_url() -> (r: &'static str)
    ensures
        r@ == "http://127.0.0.1:8000/docs"@,
{
    "http://127.0.0.1:8000/docs"
}

/// The frontend's root URL: probed for frontend liveness, and the hand-off
/// target once both services are ready.
pub fn frontend_url() -> (r: &'static str)
    ensures
        r@ == "http://127.0.0.1:3000"@,
{
    "http://127.0.0.1:3000"
}

/// The project virtual-environment interpreter preferred for the backend when
/// the driver finds it on disk.
pub fn backend_venv_python() -> (r: &'static str)
    ensures
        r@ == "../backend/venv/bin/python"@,
{
    "../backend/venv/bin/python"
}

/// The argument vector every backend candidate is launched with.
pub open spec fn backend_arg_views() -> Seq<Seq<char>> {
    seq!["-m"@, "uvicorn"@, "app.main_complete:app"@, "--host"@, "127.0.0.1"@, "--port"@, "8000"@]
}

/// The programs tried for the backend, in order: the virtual-environment
/// interpreter first when present, then the interpreter name fallbacks.
pub open spec fn backend_program_views(venv_present: bool) -> Seq<Seq<char>> {
    if venv_present {
        seq!["../backend/venv/bin/python"@, "python3"@, "python"@, "py"@]
    } else {
        seq!["python3"@, "python"@, "py"@]
    }
}

/// A candidate launches the backend: the given program, the fixed argument
/// vector, the backend directory, and no environment override.
pub open spec fn is_backend_candidate(c: Candidate, program: Seq<char>) -> bool {
    &&& c.program@ == program
    &&& c.args@.len() == backend_arg_views().len()
    &&& forall|i: int| 0 <= i < c.args@.len() ==> #[trigger] c.args@[i]@ == backend_arg_views()[i]
    &&& c.cwd@ == "../backend"@
    &&& c.env@.len() == 0
}

/// The commands tried for the frontend, in order: each entry is a program
/// with its argument vector.
pub open spec fn frontend_command_views() -> Seq<(Seq<char>, Seq<Seq<char>>)> {
    seq![
        ("npm"@, seq!["run"@, "start"@]),
        ("yarn"@, seq!["start"@]),
        ("pnpm"@, seq!["start"@]),
        ("bun"@, seq!["run"@, "start"@]),
    ]
}

/// A candidate launches the frontend: the given program and arguments, the
/// frontend directory, and the single override that keeps the tooling from
/// opening an external browser.
pub open spec fn is_frontend_candidate(c: Candidate, program: Seq<char>, args: Seq<Seq<char>>) -> bool {
    &&& c.program@ == program
    &&& c.args@.len() == args.len()
    &&& forall|i: int| 0 <= i < c.args@.len() ==> #[trigger] c.args@[i]@ == args[i]
    &&& c.cwd@ == "../frontend"@
    &&& c.env@.len() == 1
    &&& c.env@[0].0@ == "BROWSER"@
    &&& c.env@[0].1@ == "none"@
}

fn backend_args() -> (args: Vec<String>)
    ensures
        args@.len() == backend_arg_views().len(),
        forall|i: int| 0 <= i < args@.len() ==> #[trigger] args@[i]@ == backend_arg_views()[i],
{
    let mut args: Vec<String> = Vec::new();
    args.push(String::from_str("-m"));
    args.push(String::from_str("uvicorn"));
    args.push(String::from_str("app.main_complete:app"));
    args.push(String::from_str("--host"));
    args.push(String::from_str("127.0.0.1"));
    args.push(String::from_str("--port"));
    args.push(String::from_str("8000"));
    args
}

fn backend_candidate(program: &str) -> (c: Candidate)
    ensures
        is_backend_candidate(c, program@),
{
    Candidate {
        program: String::from_str(program),
        args: backend_args(),
        cwd: String::from_str("../backend"),
        env: Vec::new(),
    }
}

/// The backend's candidate list, in the order the resolver tries it: the
/// project virtual-environment interpreter first when the driver found one,
/// then the interpreter fallbacks, each with the same arguments, directory
/// and environment.
pub fn backend_candidates(venv_present: bool) -> (r: Vec<Candidate>)
    ensures
        r@.len() == backend_program_views(venv_present).len(),
        forall|i: int|
            0 <= i < r@.len() ==> is_backend_candidate(
                #[trigger] r@[i],
                backend_program_views(venv_present)[i],
            ),
{
    let mut r: Vec<Candidate> = Vec::new();
    if venv_present {
        r.push(backend_candidate("../backend/venv/bin/python"));
    }
    r.push(backend_candidate("python3"));
    r.push(backend_candidate("python"));
    r.push(backend_candidate("py"));
    r
}

fn frontend_candidate(program: &str, run_prefixed: bool) -> (c: Candidate)
    ensures
        run_prefixed ==> is_frontend_candidate(c, program@, seq!["run"@, "start"@]),
        !run_prefixed ==> is_frontend_candidate(c, program@, seq!["start"@]),
{
    let mut args: Vec<String> = Vec::new();
    if run_prefixed {
        args.push(String::from_str("run"));
    }
    args.push(String::from_str("start"));
    let mut env: Vec<(String, String)> = Vec::new();
    env.push((String::from_str("BROWSER"), String::from_str("none")));
    Candidate { program: String::from_str(program), args, cwd: String::from_str("../frontend"), env }
}

/// The frontend's candidate list, in the order the resolver tries it: the
/// package-manager invocations, each run in the frontend directory with the
/// external-browser override set.
pub fn frontend_candidates() -> (r: Vec<Candidate>)
    ensures
        r@.len() == frontend_command_views().len(),
        forall|i: int|
            0 <= i < r@.len() ==> is_frontend_candidate(
                #[trigger] r@[i],
                frontend_command_views()[i].0,
                frontend_command_views()[i].1,
            ),
{
    let mut r: Vec<Candidate> = Vec::new();
    r.push(frontend_candidate("npm", true));
    r.push(frontend_candidate("yarn", false));
    r.push(frontend_candidate("pnpm", false));
    r.push(frontend_candidate("bun", true));
    r
}

} // verus!
