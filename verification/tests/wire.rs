use console_client::wire::{read_step, write_step, Frame, ReadStep, ServerEvent, WriteStep};

#[test]
fn events_are_forwarded() {
    assert_eq!(
        read_step(Frame::Text(Some(ServerEvent::Pong))),
        ReadStep::Forward(ServerEvent::Pong)
    );
}

#[test]
fn other_frames_are_passed_over() {
    assert_eq!(read_step(Frame::Text(None)), ReadStep::Skip);
    assert_eq!(read_step(Frame::Other), ReadStep::Skip);
}

#[test]
fn reading_ends_with_the_socket() {
    assert_eq!(read_step(Frame::Close), ReadStep::Stop);
    assert_eq!(read_step(Frame::Failed), ReadStep::Stop);
}

#[test]
fn encoded_actions_are_written() {
    assert_eq!(
        write_step(Some("{\"action\":\"ping\"}".to_string())),
        WriteStep::Write("{\"action\":\"ping\"}".to_string())
    );
    assert_eq!(write_step(None), WriteStep::Skip);
}
