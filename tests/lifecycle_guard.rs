use lottie_splash_rs::error::Error;
use lottie_splash_rs::lifecycle::{Lifecycle, Phase};
use lottie_splash_rs::status::lottie_splash_error;

#[test]
fn second_run_is_rejected() {
    let mut l = Lifecycle::new();
    assert_eq!(l.begin_run(), Ok(()));
    assert_eq!(l.current_phase(), Phase::Running);
    assert_eq!(l.begin_run(), Err(Error::WindowAlreadyRunning));
    assert_eq!(l.current_phase(), Phase::Running);
}

#[test]
fn rerun_after_return_is_rejected() {
    let mut l = Lifecycle::new();
    assert_eq!(l.begin_run(), Ok(()));
    assert_eq!(l.end_run(lottie_splash_error::LOTTIE_SPLASH_SUCCESS), Ok(()));
    assert_eq!(l.current_phase(), Phase::Finished);
    assert_eq!(l.begin_run(), Err(Error::WindowAlreadyRunning));
}

#[test]
fn user_close_is_its_own_outcome() {
    let mut l = Lifecycle::new();
    assert_eq!(l.begin_run(), Ok(()));
    assert_eq!(
        l.end_run(lottie_splash_error::LOTTIE_SPLASH_WINDOW_CLOSED_BY_USER),
        Err(Error::WindowClosedByUser)
    );
}

#[test]
fn close_while_running_ends_with_ok() {
    let mut l = Lifecycle::new();
    assert_eq!(l.begin_run(), Ok(()));
    assert_eq!(l.request_close(), Ok(true));
    assert!(l.is_close_requested());
    assert_eq!(l.end_run(lottie_splash_error::LOTTIE_SPLASH_SUCCESS), Ok(()));
    assert_eq!(l.request_close(), Ok(false));
}

#[test]
fn close_before_run_keeps_run_possible() {
    let mut l = Lifecycle::new();
    assert!(!l.is_close_requested());
    assert_eq!(l.request_close(), Ok(true));
    assert_eq!(l.current_phase(), Phase::Created);
    assert_eq!(l.begin_run(), Ok(()));
}

#[test]
fn render_failure_during_loop() {
    let mut l = Lifecycle::new();
    assert_eq!(l.begin_run(), Ok(()));
    assert_eq!(
        l.end_run(lottie_splash_error::LOTTIE_SPLASH_ERROR_RENDER_FAILED),
        Err(Error::RenderFailed)
    );
}

#[test]
fn updates_allowed_until_destroyed() {
    let mut l = Lifecycle::new();
    assert_eq!(l.check_update(), Ok(()));
    assert_eq!(l.begin_run(), Ok(()));
    assert_eq!(l.check_update(), Ok(()));
    assert!(l.destroy());
    assert_eq!(l.check_update(), Err(Error::InvalidArgument));
    assert_eq!(l.request_close(), Err(Error::InvalidArgument));
    assert_eq!(l.begin_run(), Err(Error::InvalidArgument));
}

#[test]
fn repeated_create_destroy_releases_once_each() {
    for _ in 0..1000 {
        let mut l = Lifecycle::after_create(true, lottie_splash_error::LOTTIE_SPLASH_SUCCESS).unwrap();
        assert!(l.destroy());
        assert!(!l.destroy());
        assert_eq!(l.current_phase(), Phase::Destroyed);
    }
}

#[test]
fn failed_create_gives_mapped_error() {
    let r = Lifecycle::after_create(false, lottie_splash_error::LOTTIE_SPLASH_ERROR_ANIMATION_LOAD_FAILED);
    assert!(matches!(r, Err(Error::AnimationLoadFailed)));
    let r = Lifecycle::after_create(false, lottie_splash_error::LOTTIE_SPLASH_SUCCESS);
    assert!(matches!(r, Err(Error::InvalidArgument)));
    let r = Lifecycle::after_create(false, lottie_splash_error::LOTTIE_SPLASH_ERROR_WINDOW_CREATION_FAILED);
    assert!(matches!(r, Err(Error::WindowCreationFailed)));
}

#[test]
fn independent_guards_do_not_interfere() {
    let mut a = Lifecycle::new();
    let mut b = Lifecycle::new();
    assert_eq!(a.begin_run(), Ok(()));
    assert_eq!(b.current_phase(), Phase::Created);
    assert_eq!(b.begin_run(), Ok(()));
    assert_eq!(a.request_close(), Ok(true));
    assert!(!b.is_close_requested());
    assert!(a.destroy());
    assert_eq!(b.check_update(), Ok(()));
}
