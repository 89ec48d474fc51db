use lottie_splash_rs::error::Error;
use lottie_splash_rs::status::lottie_splash_error;
use lottie_splash_rs::error::outcome_of_code;

const ALL: [lottie_splash_error; 12] = [
    lottie_splash_error::LOTTIE_SPLASH_SUCCESS,
    lottie_splash_error::LOTTIE_SPLASH_WINDOW_CLOSED_BY_USER,
    lottie_splash_error::LOTTIE_SPLASH_ERROR_INVALID_ARGUMENT,
    lottie_splash_error::LOTTIE_SPLASH_ERROR_THORVG_INIT_FAILED,
    lottie_splash_error::LOTTIE_SPLASH_ERROR_WINDOW_CREATION_FAILED,
    lottie_splash_error::LOTTIE_SPLASH_ERROR_WINDOW_CLOSE_FAILED,
    lottie_splash_error::LOTTIE_SPLASH_ERROR_OPENGL_INIT_FAILED,
    lottie_splash_error::LOTTIE_SPLASH_ERROR_ANIMATION_LOAD_FAILED,
    lottie_splash_error::LOTTIE_SPLASH_ERROR_WINDOW_ALREADY_RUNNING,
    lottie_splash_error::LOTTIE_SPLASH_ERROR_FONT_LOAD_FAILED,
    lottie_splash_error::LOTTIE_SPLASH_ERROR_DISPLAY_INIT_FAILED,
    lottie_splash_error::LOTTIE_SPLASH_ERROR_RENDER_FAILED,
];

#[test]
fn codes_round_trip() {
    for (i, s) in ALL.iter().enumerate() {
        assert_eq!(s.to_code(), i as i32);
        assert_eq!(lottie_splash_error::from_code(i as i32), *s);
    }
}

#[test]
fn unknown_codes_become_invalid_argument() {
    for code in [-1, 12, 13, 100, i32::MIN, i32::MAX] {
        assert_eq!(
            lottie_splash_error::from_code(code),
            lottie_splash_error::LOTTIE_SPLASH_ERROR_INVALID_ARGUMENT
        );
        assert_eq!(outcome_of_code(code), Err(Error::InvalidArgument));
    }
}

#[test]
fn success_is_ok_only_through_result() {
    let r: Result<(), Error> = lottie_splash_error::LOTTIE_SPLASH_SUCCESS.into();
    assert_eq!(r, Ok(()));
    assert_eq!(outcome_of_code(0), Ok(()));
    assert_eq!(Error::from(lottie_splash_error::LOTTIE_SPLASH_SUCCESS), Error::InvalidArgument);
}

#[test]
fn each_failure_maps_to_its_error() {
    let expected = [
        Error::WindowClosedByUser,
        Error::InvalidArgument,
        Error::ThorVGInitFailed,
        Error::WindowCreationFailed,
        Error::WindowCloseFailed,
        Error::OpenGLInitFailed,
        Error::AnimationLoadFailed,
        Error::WindowAlreadyRunning,
        Error::FontLoadFailed,
        Error::DisplayInitFailed,
        Error::RenderFailed,
    ];
    for (s, e) in ALL[1..].iter().zip(expected.iter()) {
        assert_eq!(Error::from(*s), *e);
        let r: Result<(), Error> = (*s).into();
        assert_eq!(r, Err(*e));
        assert_eq!(outcome_of_code(s.to_code()), Err(*e));
    }
}

#[test]
fn animation_load_failure_is_specific() {
    assert_eq!(outcome_of_code(7), Err(Error::AnimationLoadFailed));
    assert_eq!(
        Error::from(lottie_splash_error::LOTTIE_SPLASH_ERROR_ANIMATION_LOAD_FAILED),
        Error::AnimationLoadFailed
    );
}
