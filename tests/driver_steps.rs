use tls_driver::driver::{
    feed_decision, next_step, on_transport_read, Feed, read_step, Arrival, PlainRead, ProtocolFault, ReadStep,
    SessionError, Signals, Step,
};

fn signals(wants_read: bool, wants_write: bool, handshaking: bool) -> Signals {
    Signals { wants_read, wants_write, handshaking }
}

#[test]
fn flush_comes_before_receive() {
    assert_eq!(next_step(signals(true, true, true)), Ok(Step::Flush));
    assert_eq!(next_step(signals(false, true, true)), Ok(Step::Flush));
    assert_eq!(next_step(signals(true, true, false)), Ok(Step::Flush));
}

#[test]
fn receive_while_handshaking() {
    assert_eq!(next_step(signals(true, false, true)), Ok(Step::Receive));
}

#[test]
fn finished_only_after_handshake() {
    assert_eq!(next_step(signals(true, false, false)), Ok(Step::Finished));
    assert_eq!(next_step(signals(false, false, false)), Ok(Step::Finished));
}

#[test]
fn stalled_handshake_is_protocol_error() {
    assert_eq!(
        next_step(signals(false, false, true)),
        Err(SessionError::Protocol(ProtocolFault::Stalled))
    );
}

#[test]
fn zero_read_during_handshake_is_unexpected_close() {
    assert_eq!(
        on_transport_read(0, true),
        Err(SessionError::Protocol(ProtocolFault::UnexpectedClose))
    );
}

#[test]
fn zero_read_after_handshake_is_end_of_stream() {
    assert_eq!(on_transport_read(0, false), Ok(Arrival::EndOfStream));
}

#[test]
fn nonempty_read_feeds_engine() {
    assert_eq!(on_transport_read(17, true), Ok(Arrival::Bytes(17)));
    assert_eq!(on_transport_read(1, false), Ok(Arrival::Bytes(1)));
}

#[test]
fn buffered_plaintext_is_delivered() {
    assert_eq!(read_step(PlainRead::Data(5)), ReadStep::Deliver(5));
}

#[test]
fn empty_buffer_costs_one_receive() {
    for _ in 0..3 {
        assert_eq!(read_step(PlainRead::Empty), ReadStep::Receive);
    }
}

#[test]
fn closed_stream_reads_as_end() {
    assert_eq!(read_step(PlainRead::Data(0)), ReadStep::End);
    assert_eq!(read_step(PlainRead::Truncated), ReadStep::End);
}

#[test]
fn feeding_continues_stops_or_refuses() {
    assert_eq!(feed_decision(Some(10), true), Feed::Continue);
    assert_eq!(feed_decision(Some(0), true), Feed::Stop);
    assert_eq!(feed_decision(Some(10), false), Feed::Refused);
    assert_eq!(feed_decision(None, true), Feed::Refused);
}
