//! The handshake completion driver and the plaintext read adapter, written as
//! pure decision functions: the caller owns the transport, performs the step
//! that is returned, and reports what the transport did.
use vstd::prelude::*;

verus! {

/// What the engine says of itself at one moment.
#[derive(Clone, Copy, Debug, PartialEq, Eq, Structural)]
pub struct Signals {
    /// The engine needs more ciphertext to make progress.
    pub wants_read: bool,
    /// The engine holds ciphertext that must be sent.
    pub wants_write: bool,
    /// The handshake has not completed yet.
    pub handshaking: bool,
}

/// The next thing the driver must do with the transport.
#[derive(Clone, Copy, Debug, PartialEq, Eq, Structural)]
pub enum Step {
    /// Send all queued ciphertext.
    Flush,
    /// Read one chunk of ciphertext and feed it to the engine.
    Receive,
    /// The handshake is complete and nothing is queued: stop.
    Finished,
}

/// Why the engine refused to go on.
#[derive(Clone, Copy, Debug, PartialEq, Eq, Structural)]
pub enum ProtocolFault {
    /// The engine rejected what the peer sent (bad record, alert, certificate).
    Rejected,
    /// The peer closed the stream before the handshake completed.
    UnexpectedClose,
    /// The handshake is incomplete, yet the engine wants neither to read nor
    /// to write.
    Stalled,
}

/// Errors of the configuration, the transport and the protocol.
#[derive(Clone, Copy, Debug, PartialEq, Eq, Structural)]
pub enum SessionError {
    /// An invalid name, certificate or key, found before any connection.
    Config(ConfigFault),
    /// The byte stream failed to read or write.
    Transport,
    /// The engine refused to go on.
    Protocol(ProtocolFault),
}

/// What was wrong with the configuration.
#[derive(Clone, Copy, Debug, PartialEq, Eq, Structural)]
pub enum ConfigFault {
    /// The peer name is not a valid identity.
    InvalidName,
    /// An entry of the certificate chain could not be decoded.
    MalformedCertificate,
    /// The key file holds no private key.
    MissingKey,
    /// The key file could not be decoded.
    MalformedKey,
    /// The engine refused the chain and key (for instance, a key that does not
    /// match the leaf certificate).
    Rejected,
}

/// The step owed for the given signals: queued ciphertext goes out first;
/// then a completed handshake stops the driver; then an incomplete one reads.
pub open spec fn step_for(s: Signals) -> Result<Step, SessionError> {
    if s.wants_write {
        Ok(Step::Flush)
    } else if !s.handshaking {
        Ok(Step::Finished)
    } else if s.wants_read {
        Ok(Step::Receive)
    } else {
        Err(SessionError::Protocol(ProtocolFault::Stalled))
    }
}

/// Decides the next step of the handshake driver.
pub fn next_step(s: Signals) -> (r: Result<Step, SessionError>)
    ensures
        r == step_for(s),
        s.wants_write ==> r == Ok::<Step, SessionError>(Step::Flush),
        r == Ok::<Step, SessionError>(Step::Finished) ==> !s.handshaking,
{
    if s.wants_write {
        Ok(Step::Flush)
    } else if !s.handshaking {
        Ok(Step::Finished)
    } else if s.wants_read {
        Ok(Step::Receive)
    } else {
        Err(SessionError::Protocol(ProtocolFault::Stalled))
    }
}


/// What one blocking transport read came to.
#[derive(Clone, Copy, Debug, PartialEq, Eq, Structural)]
pub enum Arrival {
    /// This many bytes of ciphertext arrived and go to the engine.
    Bytes(usize),
    /// The peer closed the stream after the handshake: a normal end.
    EndOfStream,
}

/// The meaning of a transport read of `n` bytes: zero bytes is a clean close
/// by the peer, fatal while the handshake is incomplete and an ordinary end of
/// stream after it.
pub open spec fn arrival_for(n: usize, handshaking: bool) -> Result<Arrival, SessionError> {
    if n > 0 {
        Ok(Arrival::Bytes(n))
    } else if handshaking {
        Err(SessionError::Protocol(ProtocolFault::UnexpectedClose))
    } else {
        Ok(Arrival::EndOfStream)
    }
}

/// Classifies the result of one transport read of `n` bytes.
pub fn on_transport_read(n: usize, handshaking: bool) -> (r: Result<Arrival, SessionError>)
    ensures
        r == arrival_for(n, handshaking),
{
    if n > 0 {
        Ok(Arrival::Bytes(n))
    } else if handshaking {
        Err(SessionError::Protocol(ProtocolFault::UnexpectedClose))
    } else {
        Ok(Arrival::EndOfStream)
    }
}

/// What the engine's plaintext buffer gave on one attempt to read from it.
#[derive(Clone, Copy, Debug, PartialEq, Eq, Structural)]
pub enum PlainRead {
    /// This many bytes of plaintext were copied out; zero means the peer
    /// ended the session with a close alert.
    Data(usize),
    /// No plaintext is buffered; more ciphertext is needed.
    Empty,
    /// The stream ended without a close alert.
    Truncated,
}

/// What the read adapter does next.
#[derive(Clone, Copy, Debug, PartialEq, Eq, Structural)]
pub enum ReadStep {
    /// Return this many bytes to the application.
    Deliver(usize),
    /// Read one chunk from the transport, feed it to the engine, and try again.
    Receive,
    /// Return zero: the stream has ended.
    End,
}

/// The adapter's next move: buffered plaintext is delivered at once; an empty
/// buffer costs exactly one transport read; an ended stream reads as zero.
pub open spec fn read_step_for(p: PlainRead) -> ReadStep {
    match p {
        PlainRead::Data(n) => if n > 0 {
            ReadStep::Deliver(n)
        } else {
            ReadStep::End
        },
        PlainRead::Empty => ReadStep::Receive,
        PlainRead::Truncated => ReadStep::End,
    }
}

/// Decides the read adapter's next move from what the engine's plaintext
/// buffer gave.
pub fn read_step(p: PlainRead) -> (r: ReadStep)
    ensures
        r == read_step_for(p),
        r is Receive <==> p is Empty,
        r is Deliver ==> r->Deliver_0 > 0,
{
    match p {
        PlainRead::Data(n) => if n > 0 {
            ReadStep::Deliver(n)
        } else {
            ReadStep::End
        },
        PlainRead::Empty => ReadStep::Receive,
        PlainRead::Truncated => ReadStep::End,
    }
}

/// What feeding ciphertext to the engine does after one hand-over.
#[derive(Clone, Copy, Debug, PartialEq, Eq, Structural)]
pub enum Feed {
    /// The engine took bytes and accepted them: hand over the rest.
    Continue,
    /// The engine takes no more (it has seen a close alert): stop.
    Stop,
    /// The engine refused the bytes.
    Refused,
}

/// The decision after the engine took `taken` bytes (`None`: it refused to
/// read) and, where it took them, `processed` says whether it accepted them.
pub open spec fn feed_for(taken: Option<usize>, processed: bool) -> Feed {
    match taken {
        None => Feed::Refused,
        Some(n) => if !processed {
            Feed::Refused
        } else if n == 0 {
            Feed::Stop
        } else {
            Feed::Continue
        },
    }
}

/// Decides how feeding goes on after one hand-over to the engine.
pub fn feed_decision(taken: Option<usize>, processed: bool) -> (r: Feed)
    ensures
        r == feed_for(taken, processed),
{
    match taken {
        None => Feed::Refused,
        Some(n) => if !processed {
            Feed::Refused
        } else if n == 0 {
            Feed::Stop
        } else {
            Feed::Continue
        },
    }
}

/// Every step but `Finished` moves bytes over the transport, and `Finished`
/// comes exactly when the handshake is done and nothing is queued: the driver
/// never idles and never stops early.
pub proof fn driver_never_idles(s: Signals)
    ensures
        step_for(s) == Ok::<Step, SessionError>(Step::Finished) <==> (!s.wants_write
            && !s.handshaking),
        step_for(s) is Ok ==> (step_for(s)->Ok_0 is Flush || step_for(s)->Ok_0 is Receive
            || !s.handshaking),
        s.handshaking && (s.wants_read || s.wants_write) ==> step_for(s) is Ok
            && step_for(s)->Ok_0 != Step::Finished,
{
}

/// A zero-byte transport read is fatal during the handshake and an ordinary
/// end of stream after it, while a non-empty read always feeds the engine.
pub proof fn zero_read_depends_on_handshake(n: usize, handshaking: bool)
    ensures
        n == 0 && handshaking ==> arrival_for(n, handshaking) == Err::<Arrival, SessionError>(
            SessionError::Protocol(ProtocolFault::UnexpectedClose),
        ),
        n == 0 && !handshaking ==> arrival_for(n, handshaking) == Ok::<Arrival, SessionError>(
            Arrival::EndOfStream,
        ),
        n > 0 ==> arrival_for(n, handshaking) == Ok::<Arrival, SessionError>(Arrival::Bytes(n)),
{
}

/// After the handshake, a read that finds no buffered plaintext asks for
/// exactly one transport read, and whatever that read returns is either fed
/// to the engine or ends the stream: never an error, never a second read
/// without new bytes.
pub proof fn read_after_complete_is_minimal(p: PlainRead, n: usize)
    ensures
        p is Empty ==> read_step_for(p) == ReadStep::Receive,
        !(p is Empty) ==> read_step_for(p) != ReadStep::Receive,
        arrival_for(n, false) is Ok,
        n == 0 <==> arrival_for(n, false) == Ok::<Arrival, SessionError>(Arrival::EndOfStream),
{
}

} // verus!
