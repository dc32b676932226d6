//! Command resolution: an ordered list of candidate launch commands for a
//! role is tried strictly in order, each exactly once; the first candidate
//! that spawns wins. The spawn itself is I/O done by the driver; the resolver
//! keeps the position, records each failed program name, and aggregates the
//! failure once every candidate has been tried.

use vstd::prelude::*;

verus! {

/// One of the two supervised services.
#[derive(Clone, Copy, PartialEq, Eq, Structural, Debug)]
pub enum ServiceRole {
    /// The backend API service.
    Backend,
    /// The frontend development server.
    Frontend,
}

/// One candidate launch command: a program, its arguments, the directory to
/// run it in, and environment overrides beyond the inherited environment.
#[derive(Clone, Debug)]
pub struct Candidate {
    /// The program name to spawn.
    pub program: String,
    /// The argument vector.
    pub args: Vec<String>,
    /// The working directory for the spawned process.
    pub cwd: String,
    /// Environment variables set over the inherited environment.
    pub env: Vec<(String, String)>,
}

/// Every candidate of a role failed to spawn.
#[derive(Debug)]
pub struct ResolutionError {
    /// The role whose launch failed.
    pub role: ServiceRole,
    /// The program names tried, in the order they were tried.
    pub attempted: Vec<String>,
    /// The spawn error of the last candidate tried, if any was tried.
    pub last_error: Option<String>,
}

impl ResolutionError {
    /// A one-line summary of the failure, as the supervisor reports it.
    pub fn summary(&self) -> (r: &'static str)
        ensures
            self.role is Backend ==> r@ == "Could not start Python backend - Python not found"@,
            self.role is Frontend ==> r@
                == "Could not start React frontend - node package manager not found"@,
    {
        match self.role {
            ServiceRole::Backend => "Could not start Python backend - Python not found",
            ServiceRole::Frontend => "Could not start React frontend - node package manager not found",
        }
    }
}

/// The state of one resolution pass over a role's candidate list.
pub struct Resolver {
    role: ServiceRole,
    candidates: Vec<Candidate>,
    next: usize,
    attempted: Vec<String>,
    last_error: Option<String>,
}

impl Resolver {
    /// The role being resolved.
    pub closed spec fn spec_role(&self) -> ServiceRole {
        self.role
    }

    /// The candidate list, fixed for the whole pass.
    pub closed spec fn spec_candidates(&self) -> Seq<Candidate> {
        self.candidates@
    }

    /// How many candidates have been tried and failed.
    pub closed spec fn spec_next(&self) -> int {
        self.next as int
    }

    /// The program names of the candidates tried so far, in order.
    pub closed spec fn spec_attempted(&self) -> Seq<String> {
        self.attempted@
    }

    /// The most recent spawn error, if any candidate was tried.
    pub closed spec fn spec_last_error(&self) -> Option<String> {
        self.last_error
    }

    /// The resolver's invariant: the tried prefix is exactly the candidates
    /// before `next`, recorded by program name.
    pub open spec fn wf(&self) -> bool {
        &&& 0 <= self.spec_next() <= self.spec_candidates().len()
        &&& self.spec_attempted().len() == self.spec_next()
        &&& forall|i: int|
            0 <= i < self.spec_next() ==> #[trigger] self.spec_attempted()[i]@
                == self.spec_candidates()[i].program@
        &&& self.spec_next() > 0 ==> self.spec_last_error() is Some
    }

    /// A fresh pass over `candidates` for `role`: nothing tried yet.
    pub fn new(role: ServiceRole, candidates: Vec<Candidate>) -> (r: Resolver)
        ensures
            r.wf(),
            r.spec_role() == role,
            r.spec_candidates() == candidates@,
            r.spec_next() == 0,
            r.spec_attempted() == Seq::<String>::empty(),
            r.spec_last_error() is None,
    {
        Resolver { role, candidates, next: 0, attempted: Vec::new(), last_error: None }
    }

    /// The candidate to try next, or `None` once every candidate has failed.
    pub fn current(&self) -> (r: Option<&Candidate>)
        ensures
            self.spec_next() < self.spec_candidates().len() ==> (r matches Some(c) && *c
                == self.spec_candidates()[self.spec_next()]),
            self.spec_next() >= self.spec_candidates().len() ==> r is None,
    {
        if self.next < self.candidates.len() {
            Some(&self.candidates[self.next])
        } else {
            None
        }
    }

    /// Record that the current candidate could not be spawned: its program
    /// name joins the attempted list, the error is kept as the last one, and
    /// resolution moves to the next candidate. Nothing else changes.
    pub fn record_failure(&mut self, error: String)
        requires
            old(self).wf(),
            old(self).spec_next() < old(self).spec_candidates().len(),
        ensures
            final(self).wf(),
            final(self).spec_role() == old(self).spec_role(),
            final(self).spec_candidates() == old(self).spec_candidates(),
            final(self).spec_next() == old(self).spec_next() + 1,
            final(self).spec_attempted() == old(self).spec_attempted().push(
                old(self).spec_candidates()[old(self).spec_next()].program,
            ),
            final(self).spec_last_error() == Some(error),
    {
        // Binding the length establishes that it fits in usize, so the
        // increment of `next` below cannot overflow.
        let total = self.candidates.len();
        assert(self.next < total);
        let program = self.candidates[self.next].program.clone();
        self.attempted.push(program);
        self.last_error = Some(error);
        self.next = self.next + 1;
    }

    /// Whether every candidate has been tried and failed.
    pub fn is_exhausted(&self) -> (r: bool)
        ensures
            r == (self.spec_next() == self.spec_candidates().len()),
    {
        self.next == self.candidates.len()
    }

    /// The program names tried and failed so far, in order.
    pub fn attempted(&self) -> (r: &Vec<String>)
        ensures
            r@ == self.spec_attempted(),
    {
        &self.attempted
    }

    /// Aggregate an exhausted pass into a `ResolutionError` that lists every
    /// program name tried, in order, with the last spawn error.
    pub fn into_error(self) -> (e: ResolutionError)
        requires
            self.wf(),
            self.spec_next() == self.spec_candidates().len(),
        ensures
            e.role == self.spec_role(),
            e.attempted@ == self.spec_attempted(),
            e.attempted@.len() == self.spec_candidates().len(),
            forall|i: int|
                0 <= i < self.spec_candidates().len() ==> #[trigger] e.attempted@[i]@
                    == self.spec_candidates()[i].program@,
            e.last_error == self.spec_last_error(),
            self.spec_candidates().len() > 0 ==> e.last_error is Some,
    {
        ResolutionError { role: self.role, attempted: self.attempted, last_error: self.last_error }
    }
}

} // verus!
