//! The lifecycle of one engine context, as a state machine that every
//! operation on a splash handle consults before it reaches the engine.
use crate::error::{error_of, outcome_of, Error};
use crate::status::lottie_splash_error;
use vstd::prelude::*;

verus! {

/// Where a context stands in its life.
#[derive(Debug, Clone, Copy, PartialEq, Eq, Structural)]
pub enum Phase {
    /// Constructed; the render loop has not been entered.
    Created,
    /// One thread is inside the render loop.
    Running,
    /// The render loop has returned; it may not be entered again.
    Finished,
    /// The context has been released; nothing may reach it any more.
    Destroyed,
}

/// Phase after a request to enter the render loop.
pub open spec fn after_begin(p: Phase) -> Phase {
    match p {
        Phase::Created => Phase::Running,
        _ => p,
    }
}

/// Answer to a request to enter the render loop: only a context that has
/// never run may start; a running or finished one answers
/// `WindowAlreadyRunning`, a destroyed one `InvalidArgument`.
pub open spec fn begin_outcome(p: Phase) -> Result<(), Error> {
    match p {
        Phase::Created => Ok(()),
        Phase::Running => Err(Error::WindowAlreadyRunning),
        Phase::Finished => Err(Error::WindowAlreadyRunning),
        Phase::Destroyed => Err(Error::InvalidArgument),
    }
}

/// Phase after the render loop has returned.
pub open spec fn after_end(p: Phase) -> Phase {
    match p {
        Phase::Running => Phase::Finished,
        _ => p,
    }
}

/// Answer to a close request: `Ok(true)` when the request must be passed on
/// to the engine (before or during the loop), `Ok(false)` when the loop has
/// already returned and nothing is left to close, `InvalidArgument` once
/// destroyed.
pub open spec fn close_outcome(p: Phase) -> Result<bool, Error> {
    match p {
        Phase::Created => Ok(true),
        Phase::Running => Ok(true),
        Phase::Finished => Ok(false),
        Phase::Destroyed => Err(Error::InvalidArgument),
    }
}

/// Whether destroying from phase `p` must release the engine's context.
pub open spec fn releases(p: Phase) -> bool {
    p != Phase::Destroyed
}

/// Answer to a status or progress update: accepted until destroyed.
pub open spec fn update_outcome(p: Phase) -> Result<(), Error> {
    match p {
        Phase::Destroyed => Err(Error::InvalidArgument),
        _ => Ok(()),
    }
}

/// Guard over one engine context: its phase, and whether a close has been
/// asked for.
#[derive(Debug)]
pub struct Lifecycle {
    phase: Phase,
    close_requested: bool,
}

impl Lifecycle {
    /// The phase the guarded context is in.
    pub closed spec fn phase(&self) -> Phase {
        self.phase
    }

    /// Whether a close has been passed on to the engine.
    pub closed spec fn close_requested(&self) -> bool {
        self.close_requested
    }

    /// The guard of a freshly constructed context.
    pub fn new() -> (r: Lifecycle)
        ensures
            r.phase() == Phase::Created,
            !r.close_requested(),
    {
        Lifecycle { phase: Phase::Created, close_requested: false }
    }

    /// Decides what construction yields once the engine has answered:
    /// `created` says whether it handed back a context, `status` is the code
    /// it wrote on failure. A context gives the guard of a new handle; no
    /// context gives the error that `status` stands for, and no handle.
    pub fn after_create(created: bool, status: lottie_splash_error) -> (r: Result<Lifecycle, Error>)
        ensures
            created ==> (r matches Ok(l) && l.phase() == Phase::Created && !l.close_requested()),
            !created ==> r == Err::<Lifecycle, Error>(error_of(status)),
    {
        if created {
            Ok(Lifecycle::new())
        } else {
            Err(<Error as From<lottie_splash_error>>::from(status))
        }
    }

    /// The current phase.
    pub fn current_phase(&self) -> (r: Phase)
        ensures
            r == self.phase(),
    {
        self.phase
    }

    /// Whether a close has been asked for since construction.
    pub fn is_close_requested(&self) -> (r: bool)
        ensures
            r == self.close_requested(),
    {
        self.close_requested
    }

    /// Claims the render loop for the calling thread. On `Ok` the caller
    /// must enter the engine's loop and then report its status to `end_run`.
    pub fn begin_run(&mut self) -> (r: Result<(), Error>)
        ensures
            r == begin_outcome(old(self).phase()),
            final(self).phase() == after_begin(old(self).phase()),
            final(self).close_requested() == old(self).close_requested(),
    {
        match self.phase {
            Phase::Created => {
                self.phase = Phase::Running;
                Ok(())
            },
            Phase::Running => Err(Error::WindowAlreadyRunning),
            Phase::Finished => Err(Error::WindowAlreadyRunning),
            Phase::Destroyed => Err(Error::InvalidArgument),
        }
    }

    /// Records that the engine's loop has returned `status`, and gives the
    /// outcome of the run that this status stands for.
    pub fn end_run(&mut self, status: lottie_splash_error) -> (r: Result<(), Error>)
        ensures
            r == outcome_of(status),
            final(self).phase() == after_end(old(self).phase()),
            final(self).close_requested() == old(self).close_requested(),
    {
        if self.phase == Phase::Running {
            self.phase = Phase::Finished;
        }
        <Result<(), Error> as From<lottie_splash_error>>::from(status)
    }

    /// Records a close request and says whether the engine must be told.
    pub fn request_close(&mut self) -> (r: Result<bool, Error>)
        ensures
            r == close_outcome(old(self).phase()),
            final(self).phase() == old(self).phase(),
            final(self).close_requested() == (old(self).close_requested() || r == Ok::<bool, Error>(true)),
    {
        match self.phase {
            Phase::Created => {
                self.close_requested = true;
                Ok(true)
            },
            Phase::Running => {
                self.close_requested = true;
                Ok(true)
            },
            Phase::Finished => Ok(false),
            Phase::Destroyed => Err(Error::InvalidArgument),
        }
    }

    /// Says whether a status or progress update may reach the engine.
    pub fn check_update(&self) -> (r: Result<(), Error>)
        ensures
            r == update_outcome(self.phase()),
    {
        match self.phase {
            Phase::Destroyed => Err(Error::InvalidArgument),
            _ => Ok(()),
        }
    }

    /// Marks the context released. Returns `true` exactly when the engine's
    /// context must now be destroyed, so that it is destroyed once only.
    pub fn destroy(&mut self) -> (r: bool)
        ensures
            r == releases(old(self).phase()),
            final(self).phase() == Phase::Destroyed,
            final(self).close_requested() == old(self).close_requested(),
    {
        let first = self.phase != Phase::Destroyed;
        self.phase = Phase::Destroyed;
        first
    }
}

/// The render loop of a context is entered at most once: once a request to
/// enter it has been granted, every later request is refused with
/// `WindowAlreadyRunning`, both while the loop runs and after it returned.
pub proof fn lemma_loop_entered_once(p: Phase)
    requires
        begin_outcome(p) is Ok,
    ensures
        begin_outcome(after_begin(p)) == Err::<(), Error>(Error::WindowAlreadyRunning),
        after_begin(after_begin(p)) == after_begin(p),
        begin_outcome(after_end(after_begin(p))) == Err::<(), Error>(Error::WindowAlreadyRunning),
{
}

/// A close request never disturbs the loop: asked for before the loop
/// starts it is passed on and the loop may still be entered; asked for while
/// the loop runs it is passed on, and a loop that then returns with
/// `LOTTIE_SPLASH_SUCCESS` ends the run with `Ok`, not `WindowClosedByUser`.
pub proof fn lemma_close_keeps_loop_usable()
    ensures
        close_outcome(Phase::Created) == Ok::<bool, Error>(true),
        begin_outcome(Phase::Created) is Ok,
        close_outcome(Phase::Running) == Ok::<bool, Error>(true),
        outcome_of(lottie_splash_error::LOTTIE_SPLASH_SUCCESS) == Ok::<(), Error>(()),
        after_end(Phase::Running) == Phase::Finished,
{
}

/// A context is released exactly once, whatever live phase it is destroyed
/// from, a freshly created one included: the first `destroy` asks for the
/// release, and afterwards every operation is refused and no further release
/// is asked for.
pub proof fn lemma_released_once(p: Phase)
    requires
        p != Phase::Destroyed,
    ensures
        releases(p),
        !releases(Phase::Destroyed),
        begin_outcome(Phase::Destroyed) == Err::<(), Error>(Error::InvalidArgument),
        close_outcome(Phase::Destroyed) == Err::<bool, Error>(Error::InvalidArgument),
        update_outcome(Phase::Destroyed) == Err::<(), Error>(Error::InvalidArgument),
        after_begin(Phase::Destroyed) == Phase::Destroyed,
        after_end(Phase::Destroyed) == Phase::Destroyed,
{
}

} // verus!
