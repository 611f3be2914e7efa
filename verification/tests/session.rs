use pacaptr::exec::session::{Action, Event, Session, Stage};
use pacaptr::exec::{ExecError, Output};

fn running(mute: bool) -> Session {
    let mut s = Session::new(mute);
    assert_eq!(s.stage(), Stage::Spawning);
    assert_eq!(s.step(Event::Spawned), Action::Continue);
    assert_eq!(s.stage(), Stage::Running);
    s
}

#[test]
fn echo_hi_in_a_session_that_echoes() {
    let mut s = running(false);
    assert_eq!(s.step(Event::Chunk(b"hi\n".to_vec())), Action::Echo(b"hi\n".to_vec()));
    assert_eq!(s.step(Event::StreamEnd), Action::Continue);
    assert_eq!(
        s.step(Event::Exited(Some(0))),
        Action::Finish(Ok(Output { contents: b"hi\n".to_vec(), code: Some(0) }))
    );
    assert_eq!(s.stage(), Stage::Closed);
}

#[test]
fn exit_may_come_before_the_output_ends() {
    let mut s = running(false);
    assert_eq!(s.step(Event::Chunk(b"a".to_vec())), Action::Echo(b"a".to_vec()));
    assert_eq!(s.step(Event::Exited(Some(3))), Action::Continue);
    assert_eq!(s.step(Event::Chunk(b"b".to_vec())), Action::Echo(b"b".to_vec()));
    assert_eq!(
        s.step(Event::StreamEnd),
        Action::Finish(Ok(Output { contents: b"ab".to_vec(), code: Some(3) }))
    );
}

#[test]
fn muted_session_captures_without_echo() {
    let mut s = running(true);
    assert_eq!(s.step(Event::Chunk(b"a".to_vec())), Action::Continue);
    assert_eq!(s.step(Event::Chunk(b"bc".to_vec())), Action::Continue);
    assert_eq!(s.step(Event::StreamEnd), Action::Continue);
    assert_eq!(
        s.step(Event::Exited(Some(1))),
        Action::Finish(Ok(Output { contents: b"abc".to_vec(), code: Some(1) }))
    );
}

#[test]
fn death_by_signal_has_no_code() {
    let mut s = running(true);
    assert_eq!(s.step(Event::StreamEnd), Action::Continue);
    assert_eq!(
        s.step(Event::Exited(None)),
        Action::Finish(Ok(Output { contents: vec![], code: None }))
    );
}

#[test]
fn a_program_that_cannot_be_started() {
    let mut s = Session::new(false);
    assert_eq!(s.step(Event::SpawnFailed), Action::Finish(Err(ExecError::SpawnFailed)));
    assert_eq!(s.stage(), Stage::Closed);
    assert_eq!(s.step(Event::Chunk(b"x".to_vec())), Action::Continue);
    assert_eq!(s.step(Event::Exited(Some(0))), Action::Continue);
    assert_eq!(s.step(Event::StreamEnd), Action::Continue);
}

#[test]
fn io_failure_ends_the_session_and_drops_the_capture() {
    let mut s = running(false);
    assert_eq!(s.step(Event::Chunk(b"partial".to_vec())), Action::Echo(b"partial".to_vec()));
    assert_eq!(s.step(Event::IoFailed), Action::Finish(Err(ExecError::IoFailure)));
    assert_eq!(s.stage(), Stage::Closed);
    assert_eq!(s.step(Event::Exited(Some(0))), Action::Continue);
}

#[test]
fn io_failure_counts_even_after_the_exit() {
    let mut s = running(false);
    assert_eq!(s.step(Event::Exited(Some(0))), Action::Continue);
    assert_eq!(s.step(Event::IoFailed), Action::Finish(Err(ExecError::IoFailure)));
}

#[test]
fn wait_failure_is_reported_once_the_output_has_ended() {
    let mut s = running(false);
    assert_eq!(s.step(Event::WaitFailed), Action::Continue);
    assert_eq!(s.step(Event::Chunk(b"x".to_vec())), Action::Echo(b"x".to_vec()));
    assert_eq!(s.step(Event::StreamEnd), Action::Finish(Err(ExecError::WaitFailed)));

    let mut s = running(false);
    assert_eq!(s.step(Event::StreamEnd), Action::Continue);
    assert_eq!(s.step(Event::WaitFailed), Action::Finish(Err(ExecError::WaitFailed)));
}

#[test]
fn events_out_of_place_change_nothing() {
    let mut s = Session::new(false);
    assert_eq!(s.step(Event::Chunk(b"x".to_vec())), Action::Continue);
    assert_eq!(s.step(Event::StreamEnd), Action::Continue);
    assert_eq!(s.step(Event::Exited(Some(9))), Action::Continue);
    assert_eq!(s.step(Event::Answer("y".to_string())), Action::Continue);
    assert_eq!(s.stage(), Stage::Spawning);
    assert_eq!(s.step(Event::Spawned), Action::Continue);
    assert_eq!(s.step(Event::Spawned), Action::Continue);
    assert_eq!(s.step(Event::SpawnFailed), Action::Continue);
    assert_eq!(s.step(Event::Exited(Some(1))), Action::Continue);
    assert_eq!(s.step(Event::Exited(Some(2))), Action::Continue);
    assert_eq!(s.step(Event::WaitFailed), Action::Continue);
    assert_eq!(s.step(Event::Chunk(b"y".to_vec())), Action::Echo(b"y".to_vec()));
    assert_eq!(
        s.step(Event::StreamEnd),
        Action::Finish(Ok(Output { contents: b"y".to_vec(), code: Some(1) }))
    );
}

#[test]
fn a_megabyte_of_output_before_the_exit_is_seen() {
    let mut s = running(false);
    let chunk = vec![b'e'; 8192];
    let mut live: Vec<u8> = Vec::new();
    for _ in 0..160 {
        match s.step(Event::Chunk(chunk.clone())) {
            Action::Echo(bytes) => live.extend_from_slice(&bytes),
            other => panic!("unexpected {:?}", other),
        }
    }
    assert_eq!(s.step(Event::StreamEnd), Action::Continue);
    match s.step(Event::Exited(Some(0))) {
        Action::Finish(Ok(out)) => {
            assert_eq!(out.contents.len(), 160 * 8192);
            assert!(out.contents.len() > 1_000_000);
            assert_eq!(out.contents, live);
            assert_eq!(out.code, Some(0));
        }
        other => panic!("unexpected {:?}", other),
    }
}

#[test]
fn output_default_is_empty_with_code_zero() {
    assert_eq!(Output::default(), Output { contents: vec![], code: Some(0) });
    let out = Output { contents: vec![1, 2], code: None };
    assert_eq!(out.clone(), out);
}
