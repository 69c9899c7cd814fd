use webgl_demo::commands::{GlCommand, TriangleUniform};
use webgl_demo::game::LogEvent;
use webgl_demo::{Session, SessionError};

#[test]
fn frame_before_init_is_a_defined_error() {
    let mut session = Session::new();
    let r = session.frame(100);
    assert_eq!(r.err(), Some(SessionError::NotInitialized));
}

#[test]
fn key_events_before_init_are_defined_errors() {
    let mut session = Session::new();
    assert_eq!(
        session.send_key_down(65, 7).err(),
        Some(SessionError::NotInitialized)
    );
    assert_eq!(session.send_key_up(65).err(), Some(SessionError::NotInitialized));
}

#[test]
fn init_returns_the_setup_plan_and_arms_the_session() {
    let mut session = Session::new();
    let setup = session.init(1000, TriangleUniform::TimeVarying);
    assert_eq!(setup[0], GlCommand::CreateOffscreenFramebuffer);
    assert_eq!(setup.len(), 15);
    let out = session.frame(1016).expect("frame after init succeeds");
    assert_eq!(out.dt_millis, 16);
}

#[test]
fn key_events_after_init_succeed() {
    let mut session = Session::new();
    session.init(0, TriangleUniform::TimeVarying);
    let down = session.send_key_down(80, 250).expect("key down after init succeeds");
    assert_eq!(down.sound, Some(50));
    assert_eq!(down.log, LogEvent::KeyDown { code: 80 });
    let up = session.send_key_up(80).expect("key up after init succeeds");
    assert_eq!(up.sound, None);
    assert_eq!(up.log, LogEvent::KeyUp { code: 80 });
}

#[test]
fn reinit_restarts_the_clock() {
    let mut session = Session::new();
    session.init(100, TriangleUniform::TimeVarying);
    session.frame(200).unwrap();
    session.init(1000, TriangleUniform::TimeVarying);
    let out = session.frame(1005).unwrap();
    assert_eq!(out.dt_millis, 5);
}
