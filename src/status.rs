//! The engine's status codes, as a closed enumeration.
use vstd::prelude::*;

verus! {

/// Status reported by the native engine for every operation.
#[derive(Debug, Clone, Copy, PartialEq, Eq, Structural)]
pub enum lottie_splash_error {
    LOTTIE_SPLASH_SUCCESS,
    LOTTIE_SPLASH_WINDOW_CLOSED_BY_USER,
    LOTTIE_SPLASH_ERROR_INVALID_ARGUMENT,
    LOTTIE_SPLASH_ERROR_THORVG_INIT_FAILED,
    LOTTIE_SPLASH_ERROR_WINDOW_CREATION_FAILED,
    LOTTIE_SPLASH_ERROR_WINDOW_CLOSE_FAILED,
    LOTTIE_SPLASH_ERROR_OPENGL_INIT_FAILED,
    LOTTIE_SPLASH_ERROR_ANIMATION_LOAD_FAILED,
    LOTTIE_SPLASH_ERROR_WINDOW_ALREADY_RUNNING,
    LOTTIE_SPLASH_ERROR_FONT_LOAD_FAILED,
    LOTTIE_SPLASH_ERROR_DISPLAY_INIT_FAILED,
    LOTTIE_SPLASH_ERROR_RENDER_FAILED,
}

/// The numeric code the engine uses for a status, from 0 (success) to 11.
pub open spec fn code_of(s: lottie_splash_error) -> int {
    match s {
        lottie_splash_error::LOTTIE_SPLASH_SUCCESS => 0,
        lottie_splash_error::LOTTIE_SPLASH_WINDOW_CLOSED_BY_USER => 1,
        lottie_splash_error::LOTTIE_SPLASH_ERROR_INVALID_ARGUMENT => 2,
        lottie_splash_error::LOTTIE_SPLASH_ERROR_THORVG_INIT_FAILED => 3,
        lottie_splash_error::LOTTIE_SPLASH_ERROR_WINDOW_CREATION_FAILED => 4,
        lottie_splash_error::LOTTIE_SPLASH_ERROR_WINDOW_CLOSE_FAILED => 5,
        lottie_splash_error::LOTTIE_SPLASH_ERROR_OPENGL_INIT_FAILED => 6,
        lottie_splash_error::LOTTIE_SPLASH_ERROR_ANIMATION_LOAD_FAILED => 7,
        lottie_splash_error::LOTTIE_SPLASH_ERROR_WINDOW_ALREADY_RUNNING => 8,
        lottie_splash_error::LOTTIE_SPLASH_ERROR_FONT_LOAD_FAILED => 9,
        lottie_splash_error::LOTTIE_SPLASH_ERROR_DISPLAY_INIT_FAILED => 10,
        lottie_splash_error::LOTTIE_SPLASH_ERROR_RENDER_FAILED => 11,
    }
}

/// The status a raw code stands for: the member with that code for a known
/// code, `LOTTIE_SPLASH_ERROR_INVALID_ARGUMENT` for any code outside the range.
pub open spec fn status_of(code: i32) -> lottie_splash_error {
    match code {
        0 => lottie_splash_error::LOTTIE_SPLASH_SUCCESS,
        1 => lottie_splash_error::LOTTIE_SPLASH_WINDOW_CLOSED_BY_USER,
        2 => lottie_splash_error::LOTTIE_SPLASH_ERROR_INVALID_ARGUMENT,
        3 => lottie_splash_error::LOTTIE_SPLASH_ERROR_THORVG_INIT_FAILED,
        4 => lottie_splash_error::LOTTIE_SPLASH_ERROR_WINDOW_CREATION_FAILED,
        5 => lottie_splash_error::LOTTIE_SPLASH_ERROR_WINDOW_CLOSE_FAILED,
        6 => lottie_splash_error::LOTTIE_SPLASH_ERROR_OPENGL_INIT_FAILED,
        7 => lottie_splash_error::LOTTIE_SPLASH_ERROR_ANIMATION_LOAD_FAILED,
        8 => lottie_splash_error::LOTTIE_SPLASH_ERROR_WINDOW_ALREADY_RUNNING,
        9 => lottie_splash_error::LOTTIE_SPLASH_ERROR_FONT_LOAD_FAILED,
        10 => lottie_splash_error::LOTTIE_SPLASH_ERROR_DISPLAY_INIT_FAILED,
        11 => lottie_splash_error::LOTTIE_SPLASH_ERROR_RENDER_FAILED,
        _ => lottie_splash_error::LOTTIE_SPLASH_ERROR_INVALID_ARGUMENT,
    }
}

impl lottie_splash_error {
    /// Reads a raw status code coming from the engine; codes outside the
    /// known range become `LOTTIE_SPLASH_ERROR_INVALID_ARGUMENT`.
    pub fn from_code(code: i32) -> (r: lottie_splash_error)
        ensures
            r == status_of(code),
    {
        match code {
            0 => lottie_splash_error::LOTTIE_SPLASH_SUCCESS,
            1 => lottie_splash_error::LOTTIE_SPLASH_WINDOW_CLOSED_BY_USER,
            2 => lottie_splash_error::LOTTIE_SPLASH_ERROR_INVALID_ARGUMENT,
            3 => lottie_splash_error::LOTTIE_SPLASH_ERROR_THORVG_INIT_FAILED,
            4 => lottie_splash_error::LOTTIE_SPLASH_ERROR_WINDOW_CREATION_FAILED,
            5 => lottie_splash_error::LOTTIE_SPLASH_ERROR_WINDOW_CLOSE_FAILED,
            6 => lottie_splash_error::LOTTIE_SPLASH_ERROR_OPENGL_INIT_FAILED,
            7 => lottie_splash_error::LOTTIE_SPLASH_ERROR_ANIMATION_LOAD_FAILED,
            8 => lottie_splash_error::LOTTIE_SPLASH_ERROR_WINDOW_ALREADY_RUNNING,
            9 => lottie_splash_error::LOTTIE_SPLASH_ERROR_FONT_LOAD_FAILED,
            10 => lottie_splash_error::LOTTIE_SPLASH_ERROR_DISPLAY_INIT_FAILED,
            11 => lottie_splash_error::LOTTIE_SPLASH_ERROR_RENDER_FAILED,
            _ => lottie_splash_error::LOTTIE_SPLASH_ERROR_INVALID_ARGUMENT,
        }
    }

    /// The raw code of this status, as the engine writes it.
    pub fn to_code(self) -> (r: i32)
        ensures
            r == code_of(self),
    {
        match self {
            lottie_splash_error::LOTTIE_SPLASH_SUCCESS => 0,
            lottie_splash_error::LOTTIE_SPLASH_WINDOW_CLOSED_BY_USER => 1,
            lottie_splash_error::LOTTIE_SPLASH_ERROR_INVALID_ARGUMENT => 2,
            lottie_splash_error::LOTTIE_SPLASH_ERROR_THORVG_INIT_FAILED => 3,
            lottie_splash_error::LOTTIE_SPLASH_ERROR_WINDOW_CREATION_FAILED => 4,
            lottie_splash_error::LOTTIE_SPLASH_ERROR_WINDOW_CLOSE_FAILED => 5,
            lottie_splash_error::LOTTIE_SPLASH_ERROR_OPENGL_INIT_FAILED => 6,
            lottie_splash_error::LOTTIE_SPLASH_ERROR_ANIMATION_LOAD_FAILED => 7,
            lottie_splash_error::LOTTIE_SPLASH_ERROR_WINDOW_ALREADY_RUNNING => 8,
            lottie_splash_error::LOTTIE_SPLASH_ERROR_FONT_LOAD_FAILED => 9,
            lottie_splash_error::LOTTIE_SPLASH_ERROR_DISPLAY_INIT_FAILED => 10,
            lottie_splash_error::LOTTIE_SPLASH_ERROR_RENDER_FAILED => 11,
        }
    }
}

/// Reading back the code of a status gives that status again, and a code in
/// the known range is the code of the status it is read as.
pub proof fn lemma_code_round_trip(s: lottie_splash_error, code: i32)
    ensures
        status_of(code_of(s) as i32) == s,
        0 <= code <= 11 ==> code_of(status_of(code)) == code as int,
{
}

} // verus!
