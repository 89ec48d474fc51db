//! Errors returned to callers, and the mapping from engine statuses onto them.
use crate::status::{lottie_splash_error, status_of};
use vstd::prelude::*;

verus! {

/// Why an operation on a splash window failed.
///
/// All but `NulError` are reported by the engine; `NulError` is found on
/// this side, before any text crosses into the engine, and carries the byte
/// position of the first NUL in the rejected text.
#[derive(Debug, Clone, Copy, PartialEq, Eq, Structural)]
pub enum Error {
    WindowClosedByUser,
    InvalidArgument,
    ThorVGInitFailed,
    WindowCreationFailed,
    WindowCloseFailed,
    OpenGLInitFailed,
    AnimationLoadFailed,
    WindowAlreadyRunning,
    FontLoadFailed,
    DisplayInitFailed,
    RenderFailed,
    NulError(usize),
}

/// The error that an engine status stands for. `LOTTIE_SPLASH_SUCCESS` is no
/// failure at all; where a failure was expected it is read defensively as
/// `InvalidArgument`.
pub open spec fn error_of(s: lottie_splash_error) -> Error {
    match s {
        lottie_splash_error::LOTTIE_SPLASH_SUCCESS => Error::InvalidArgument,
        lottie_splash_error::LOTTIE_SPLASH_WINDOW_CLOSED_BY_USER => Error::WindowClosedByUser,
        lottie_splash_error::LOTTIE_SPLASH_ERROR_INVALID_ARGUMENT => Error::InvalidArgument,
        lottie_splash_error::LOTTIE_SPLASH_ERROR_THORVG_INIT_FAILED => Error::ThorVGInitFailed,
        lottie_splash_error::LOTTIE_SPLASH_ERROR_WINDOW_CREATION_FAILED => Error::WindowCreationFailed,
        lottie_splash_error::LOTTIE_SPLASH_ERROR_WINDOW_CLOSE_FAILED => Error::WindowCloseFailed,
        lottie_splash_error::LOTTIE_SPLASH_ERROR_OPENGL_INIT_FAILED => Error::OpenGLInitFailed,
        lottie_splash_error::LOTTIE_SPLASH_ERROR_ANIMATION_LOAD_FAILED => Error::AnimationLoadFailed,
        lottie_splash_error::LOTTIE_SPLASH_ERROR_WINDOW_ALREADY_RUNNING => Error::WindowAlreadyRunning,
        lottie_splash_error::LOTTIE_SPLASH_ERROR_FONT_LOAD_FAILED => Error::FontLoadFailed,
        lottie_splash_error::LOTTIE_SPLASH_ERROR_DISPLAY_INIT_FAILED => Error::DisplayInitFailed,
        lottie_splash_error::LOTTIE_SPLASH_ERROR_RENDER_FAILED => Error::RenderFailed,
    }
}

/// The outcome that an engine status stands for: `Ok` exactly for
/// `LOTTIE_SPLASH_SUCCESS`, otherwise the matching error.
pub open spec fn outcome_of(s: lottie_splash_error) -> Result<(), Error> {
    if s == lottie_splash_error::LOTTIE_SPLASH_SUCCESS {
        Ok(())
    } else {
        Err(error_of(s))
    }
}

impl From<lottie_splash_error> for Result<(), Error> {
    fn from(error: lottie_splash_error) -> (r: Self)
        ensures
            r == outcome_of(error),
    {
        match error {
            lottie_splash_error::LOTTIE_SPLASH_SUCCESS => Ok(()),
            lottie_splash_error::LOTTIE_SPLASH_WINDOW_CLOSED_BY_USER => Err(Error::WindowClosedByUser),
            lottie_splash_error::LOTTIE_SPLASH_ERROR_INVALID_ARGUMENT => Err(Error::InvalidArgument),
            lottie_splash_error::LOTTIE_SPLASH_ERROR_THORVG_INIT_FAILED => Err(Error::ThorVGInitFailed),
            lottie_splash_error::LOTTIE_SPLASH_ERROR_WINDOW_CREATION_FAILED => Err(Error::WindowCreationFailed),
            lottie_splash_error::LOTTIE_SPLASH_ERROR_WINDOW_CLOSE_FAILED => Err(Error::WindowCloseFailed),
            lottie_splash_error::LOTTIE_SPLASH_ERROR_OPENGL_INIT_FAILED => Err(Error::OpenGLInitFailed),
            lottie_splash_error::LOTTIE_SPLASH_ERROR_ANIMATION_LOAD_FAILED => Err(Error::AnimationLoadFailed),
            lottie_splash_error::LOTTIE_SPLASH_ERROR_WINDOW_ALREADY_RUNNING => Err(Error::WindowAlreadyRunning),
            lottie_splash_error::LOTTIE_SPLASH_ERROR_FONT_LOAD_FAILED => Err(Error::FontLoadFailed),
            lottie_splash_error::LOTTIE_SPLASH_ERROR_DISPLAY_INIT_FAILED => Err(Error::DisplayInitFailed),
            lottie_splash_error::LOTTIE_SPLASH_ERROR_RENDER_FAILED => Err(Error::RenderFailed),
        }
    }
}

impl vstd::std_specs::convert::FromSpecImpl<lottie_splash_error> for Result<(), Error> {
    open spec fn obeys_from_spec() -> bool {
        true
    }

    open spec fn from_spec(v: lottie_splash_error) -> Result<(), Error> {
        outcome_of(v)
    }
}

impl From<lottie_splash_error> for Error {
    fn from(error: lottie_splash_error) -> (r: Self)
        ensures
            r == error_of(error),
    {
        match error {
            lottie_splash_error::LOTTIE_SPLASH_SUCCESS => Error::InvalidArgument,
            lottie_splash_error::LOTTIE_SPLASH_WINDOW_CLOSED_BY_USER => Error::WindowClosedByUser,
            lottie_splash_error::LOTTIE_SPLASH_ERROR_INVALID_ARGUMENT => Error::InvalidArgument,
            lottie_splash_error::LOTTIE_SPLASH_ERROR_THORVG_INIT_FAILED => Error::ThorVGInitFailed,
            lottie_splash_error::LOTTIE_SPLASH_ERROR_WINDOW_CREATION_FAILED => Error::WindowCreationFailed,
            lottie_splash_error::LOTTIE_SPLASH_ERROR_WINDOW_CLOSE_FAILED => Error::WindowCloseFailed,
            lottie_splash_error::LOTTIE_SPLASH_ERROR_OPENGL_INIT_FAILED => Error::OpenGLInitFailed,
            lottie_splash_error::LOTTIE_SPLASH_ERROR_ANIMATION_LOAD_FAILED => Error::AnimationLoadFailed,
            lottie_splash_error::LOTTIE_SPLASH_ERROR_WINDOW_ALREADY_RUNNING => Error::WindowAlreadyRunning,
            lottie_splash_error::LOTTIE_SPLASH_ERROR_FONT_LOAD_FAILED => Error::FontLoadFailed,
            lottie_splash_error::LOTTIE_SPLASH_ERROR_DISPLAY_INIT_FAILED => Error::DisplayInitFailed,
            lottie_splash_error::LOTTIE_SPLASH_ERROR_RENDER_FAILED => Error::RenderFailed,
        }
    }
}

impl vstd::std_specs::convert::FromSpecImpl<lottie_splash_error> for Error {
    open spec fn obeys_from_spec() -> bool {
        true
    }

    open spec fn from_spec(v: lottie_splash_error) -> Error {
        error_of(v)
    }
}

/// Maps a raw engine code straight to the outcome it stands for; an unknown
/// code is read as `InvalidArgument`.
pub fn outcome_of_code(code: i32) -> (r: Result<(), Error>)
    ensures
        r == outcome_of(status_of(code)),
        r is Ok <==> code == 0,
{
    let s = lottie_splash_error::from_code(code);
    <Result<(), Error> as From<lottie_splash_error>>::from(s)
}

/// Every failure the engine reports reaches the caller as its own error:
/// only `LOTTIE_SPLASH_SUCCESS` gives `Ok`, and two distinct failure statuses
/// never give the same error, so a failed load is told apart from any other
/// failure.
pub proof fn lemma_failures_kept_apart(a: lottie_splash_error, b: lottie_splash_error)
    ensures
        outcome_of(a) is Ok <==> a == lottie_splash_error::LOTTIE_SPLASH_SUCCESS,
        outcome_of(a) is Err ==> outcome_of(a) == Err::<(), Error>(error_of(a)),
        a != lottie_splash_error::LOTTIE_SPLASH_SUCCESS && b != lottie_splash_error::LOTTIE_SPLASH_SUCCESS
            && error_of(a) == error_of(b) ==> a == b,
        !(error_of(a) is NulError),
{
}

} // verus!
