//! The duplex adapter over one engine connection: it feeds ciphertext that
//! the transport delivered, hands out ciphertext to send, and moves
//! plaintext in and out. The transport itself belongs to the caller, who
//! performs the steps that `driver` decides.
use vstd::prelude::*;
use std::sync::Arc;
use rustls::pki_types::ServerName;
use rustls::{ClientConfig, ClientConnection, Connection, ServerConfig, ServerConnection};
use crate::drain::Outgoing;
use crate::driver::{
    arrival_for, feed_decision, next_step, on_transport_read, read_step, step_for, Arrival,
    ConfigFault, Feed, PlainRead, ProtocolFault, ReadStep, SessionError, Signals, Step,
};

verus! {

#[verifier::external_type_specification]
#[verifier::external_body]
pub struct ExConnection(Connection);

#[verifier::external_type_specification]
#[verifier::external_body]
pub struct ExServerName<'a>(ServerName<'a>);

/// Whether `name` is a DNS name or an IP address that a client may ask for.
pub uninterp spec fn is_server_name(name: Seq<char>) -> bool;

/// Relies on `ServerName::try_from(String)`: it accepts a valid DNS name or an
/// IP address, depending on the text alone.
#[verifier::external_body]
fn server_name(name: &str) -> (r: Option<ServerName<'static>>)
    ensures
        r is Some <==> is_server_name(name@),
{
    ServerName::try_from(name.to_string()).ok()
}

/// Relies on `ServerConnection::new`: a fresh server-side engine.
#[verifier::external_body]
fn new_server_engine(config: Arc<ServerConfig>) -> (r: Result<Connection, rustls::Error>) {
    ServerConnection::new(config).map(Connection::Server)
}

/// Relies on `ClientConnection::new`: a fresh client-side engine that will
/// ask for `name`.
#[verifier::external_body]
fn new_client_engine(config: Arc<ClientConfig>, name: ServerName<'static>) -> (r: Result<
    Connection,
    rustls::Error,
>) {
    ClientConnection::new(config, name).map(Connection::Client)
}

/// Relies on `Connection::wants_read`.
#[verifier::external_body]
fn engine_wants_read(c: &Connection) -> (r: bool) {
    c.wants_read()
}

/// Relies on `Connection::wants_write`.
#[verifier::external_body]
fn engine_wants_write(c: &Connection) -> (r: bool) {
    c.wants_write()
}

/// Relies on `Connection::is_handshaking`.
#[verifier::external_body]
fn engine_is_handshaking(c: &Connection) -> (r: bool) {
    c.is_handshaking()
}

/// Relies on `Connection::read_tls`, reading from a byte slice: it takes at
/// most what the slice holds, and zero once it has seen the end of the stream
/// or a close alert.
#[verifier::external_body]
fn engine_read_tls(c: &mut Connection, bytes: &[u8]) -> (r: Option<usize>)
    ensures
        r is Some ==> r->Some_0 <= bytes@.len(),
{
    let mut rd: &[u8] = bytes;
    c.read_tls(&mut rd).ok()
}

/// Relies on `Connection::process_new_packets`: it decrypts and acts on what
/// `read_tls` took in, or reports why the peer's data was refused.
#[verifier::external_body]
fn engine_process(c: &mut Connection) -> (r: Result<(), rustls::Error>) {
    c.process_new_packets().map(|_| ())
}

/// Relies on `Connection::write_tls`, writing into a fresh vector: it moves
/// the queued ciphertext out of the engine.
#[verifier::external_body]
fn engine_write_tls(c: &mut Connection) -> (r: Option<Vec<u8>>) {
    let mut out: Vec<u8> = Vec::new();
    c.write_tls(&mut out).ok().map(|_| out)
}

/// Relies on `Writer::write` of `Connection::writer`: the engine takes a
/// prefix of `data` to encrypt, as much as its buffer limit allows, and says
/// how long.
#[verifier::external_body]
fn engine_write_plaintext(c: &mut Connection, data: &[u8]) -> (r: Option<usize>)
    ensures
        r is Some ==> r->Some_0 <= data@.len(),
{
    std::io::Write::write(&mut c.writer(), data).ok()
}

/// Relies on `Reader::read` of `Connection::reader`: it copies at most
/// `buf.len()` bytes of plaintext, returns zero after a close alert, and
/// reports `WouldBlock` when nothing is buffered yet.
#[verifier::external_body]
fn engine_read_plaintext(c: &mut Connection, buf: &mut [u8]) -> (r: PlainRead)
    ensures
        final(buf)@.len() == old(buf)@.len(),
        r is Data ==> r->Data_0 <= old(buf)@.len(),
{
    match std::io::Read::read(&mut c.reader(), buf) {
        Ok(n) => PlainRead::Data(n),
        Err(e) if e.kind() == std::io::ErrorKind::WouldBlock => PlainRead::Empty,
        Err(_) => PlainRead::Truncated,
    }
}

/// One secured connection: the engine, and whether its handshake has been
/// seen to complete.
pub struct Session {
    engine: Connection,
    complete: bool,
    taken_in: Ghost<Seq<u8>>,
}

impl Session {
    /// Whether the handshake has been seen to complete. Once true it stays
    /// true for the life of the session.
    pub closed spec fn is_complete(&self) -> bool {
        self.complete
    }

    /// The ciphertext the engine has taken in from the transport, in order.
    pub closed spec fn fed(&self) -> Seq<u8> {
        self.taken_in@
    }

    /// A server-side session under `config`, its handshake not begun.
    pub fn new_server(config: Arc<ServerConfig>) -> (r: Result<Session, SessionError>)
        ensures
            r is Ok ==> !r->Ok_0.is_complete() && r->Ok_0.fed() == Seq::<u8>::empty(),
            r is Err ==> r == Err::<Session, SessionError>(
                SessionError::Config(ConfigFault::Rejected),
            ),
    {
        match new_server_engine(config) {
            Ok(engine) => Ok(Session { engine, complete: false, taken_in: Ghost(Seq::empty()) }),
            Err(_) => Err(SessionError::Config(ConfigFault::Rejected)),
        }
    }

    /// A client-side session under `config` that will ask the peer to prove
    /// it is `name`. A name that is neither a DNS name nor an IP address is
    /// refused before any engine is made.
    pub fn new_client(config: Arc<ClientConfig>, name: &str) -> (r: Result<Session, SessionError>)
        ensures
            !is_server_name(name@) <==> r == Err::<Session, SessionError>(
                SessionError::Config(ConfigFault::InvalidName),
            ),
            r is Ok ==> !r->Ok_0.is_complete() && r->Ok_0.fed() == Seq::<u8>::empty(),
            r is Err ==> r->Err_0 is Config,
    {
        let name = match server_name(name) {
            Some(n) => n,
            None => {
                return Err(SessionError::Config(ConfigFault::InvalidName));
            },
        };
        match new_client_engine(config, name) {
            Ok(engine) => Ok(Session { engine, complete: false, taken_in: Ghost(Seq::empty()) }),
            Err(_) => Err(SessionError::Config(ConfigFault::Rejected)),
        }
    }

    /// The engine's signals now. `handshaking` is false exactly when the
    /// handshake has been seen to complete, this call included.
    pub fn signals(&mut self) -> (r: Signals)
        ensures
            final(self).fed() == old(self).fed(),
            old(self).is_complete() ==> final(self).is_complete(),
            r.handshaking == !final(self).is_complete(),
    {
        if !self.complete && !engine_is_handshaking(&self.engine) {
            self.complete = true;
        }
        Signals {
            wants_read: engine_wants_read(&self.engine),
            wants_write: engine_wants_write(&self.engine),
            handshaking: !self.complete,
        }
    }

    /// The driver's next step, with the signals it was decided on.
    pub fn poll(&mut self) -> (r: (Signals, Result<Step, SessionError>))
        ensures
            final(self).fed() == old(self).fed(),
            old(self).is_complete() ==> final(self).is_complete(),
            r.0.handshaking == !final(self).is_complete(),
            r.1 == step_for(r.0),
    {
        let s = self.signals();
        (s, next_step(s))
    }

    /// All the ciphertext the engine has queued, ready to be written out.
    pub fn take_outgoing(&mut self) -> (r: Result<Outgoing, SessionError>)
        ensures
            final(self).fed() == old(self).fed(),
            final(self).is_complete() == old(self).is_complete(),
            r is Ok ==> r->Ok_0.wf() && r->Ok_0.sent_len() == 0,
            r is Err ==> r == Err::<Outgoing, SessionError>(SessionError::Transport),
    {
        match engine_write_tls(&mut self.engine) {
            Some(data) => Ok(Outgoing::new(data)),
            None => Err(SessionError::Transport),
        }
    }

    /// Hands the engine what one transport read returned. Zero bytes is the
    /// peer closing the stream: fatal before the handshake completes, an
    /// ordinary end after it. Otherwise the bytes are handed over in order,
    /// each time the part the engine has not yet taken, until all are taken,
    /// the engine takes no more, or it refuses them.
    pub fn receive(&mut self, bytes: &[u8]) -> (r: Result<Arrival, SessionError>)
        ensures
            old(self).is_complete() ==> final(self).is_complete(),
            bytes@.len() == 0 ==> r == arrival_for(0, !old(self).is_complete()),
            bytes@.len() == 0 ==> final(self).fed() == old(self).fed(),
            bytes@.len() > 0 ==> (r is Ok ==> r == Ok::<Arrival, SessionError>(
                Arrival::Bytes(bytes@.len() as usize),
            )),
            bytes@.len() > 0 && r is Err ==> r == Err::<Arrival, SessionError>(
                SessionError::Protocol(ProtocolFault::Rejected),
            ),
            old(self).fed().len() <= final(self).fed().len() <= old(self).fed().len()
                + bytes@.len(),
            final(self).fed() == old(self).fed() + bytes@.subrange(
                0,
                final(self).fed().len() - old(self).fed().len(),
            ),
    {
        let arrival = on_transport_read(bytes.len(), !self.complete);
        match arrival {
            Err(e) => {
                assert(bytes@.subrange(0, 0) =~= Seq::<u8>::empty());
                assert(self.taken_in@ + Seq::<u8>::empty() =~= self.taken_in@);
                return Err(e);
            },
            Ok(Arrival::EndOfStream) => {
                // Let the engine know the stream has ended.
                let _ = engine_read_tls(&mut self.engine, bytes);
                assert(bytes@.subrange(0, 0) =~= Seq::<u8>::empty());
                assert(self.taken_in@ + Seq::<u8>::empty() =~= self.taken_in@);
                return Ok(Arrival::EndOfStream);
            },
            Ok(Arrival::Bytes(_)) => {},
        }
        let ghost start = self.taken_in@;
        let mut pos: usize = 0;
        assert(start + bytes@.subrange(0, 0) =~= start);
        while pos < bytes.len()
            invariant
                pos <= bytes@.len(),
                old(self).is_complete() ==> self.complete,
                start == old(self).fed(),
                self.taken_in@ == start + bytes@.subrange(0, pos as int),
            decreases bytes@.len() - pos,
        {
            let rest = bytes.split_at(pos).1;
            let taken = engine_read_tls(&mut self.engine, rest);
            let mut processed: bool = true;
            if let Some(n) = taken {
                proof {
                    assert(bytes@.subrange(0, pos + n) =~= bytes@.subrange(0, pos as int)
                        + rest@.subrange(0, n as int));
                    assert(start + bytes@.subrange(0, pos + n) =~= start + bytes@.subrange(
                        0,
                        pos as int,
                    ) + rest@.subrange(0, n as int));
                }
                self.taken_in = Ghost(self.taken_in@ + rest@.subrange(0, n as int));
                pos = pos + n;
                processed = engine_process(&mut self.engine).is_ok();
            }
            match feed_decision(taken, processed) {
                Feed::Continue => {},
                Feed::Stop => {
                    return Ok(Arrival::Bytes(bytes.len()));
                },
                Feed::Refused => {
                    return Err(SessionError::Protocol(ProtocolFault::Rejected));
                },
            }
        }
        Ok(Arrival::Bytes(bytes.len()))
    }

    /// Hands a prefix of `data` to the engine to encrypt, as much as its
    /// buffer takes, and returns its length with the resulting ciphertext
    /// queue, which the caller drains to the transport before sending the
    /// rest.
    pub fn send(&mut self, data: &[u8]) -> (r: Result<(usize, Outgoing), SessionError>)
        ensures
            final(self).is_complete() == old(self).is_complete(),
            final(self).fed() == old(self).fed(),
            r is Ok ==> r->Ok_0.0 <= data@.len() && r->Ok_0.1.wf() && r->Ok_0.1.sent_len() == 0,
            r is Err ==> r == Err::<(usize, Outgoing), SessionError>(SessionError::Transport),
    {
        let taken = match engine_write_plaintext(&mut self.engine, data) {
            Some(n) => n,
            None => {
                return Err(SessionError::Transport);
            },
        };
        match self.take_outgoing() {
            Ok(q) => Ok((taken, q)),
            Err(e) => Err(e),
        }
    }

    /// Tries to fill `buf` from the plaintext the engine holds, and says what
    /// the adapter does next: deliver that many bytes, read one more chunk
    /// from the transport, or report the end of the stream.
    pub fn read_plain(&mut self, buf: &mut [u8]) -> (r: ReadStep)
        ensures
            final(self).fed() == old(self).fed(),
            final(self).is_complete() == old(self).is_complete(),
            final(buf)@.len() == old(buf)@.len(),
            r is Deliver ==> 0 < r->Deliver_0 <= old(buf)@.len(),
    {
        let p = engine_read_plaintext(&mut self.engine, buf);
        read_step(p)
    }
}

} // verus!
