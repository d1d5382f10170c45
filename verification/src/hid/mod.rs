//! Raw HID transport for the Keychron config collection: the error type, the
//! command-channel trait the protocol layer runs against, frame layout, and
//! sysfs enumeration.

pub mod device;
pub mod enumerate;

use vstd::prelude::*;

use crate::text::{append_hex_pad, append_radix, dec, hex_list, hex_pad, string_of};

verus! {

/// Transport and protocol failures. The I/O variants carry the text of the
/// operating-system error they stand for.
#[derive(Debug)]
pub enum HidError {
    /// Opening the node failed: (path, reason).
    Open(String, String),
    /// A read or write on the node failed.
    Io(String),
    /// Fewer bytes written than the frame holds: (written, frame length).
    ShortWrite(usize, usize),
    /// Waiting for readiness failed.
    Poll(String),
    /// No report with this id arrived in time.
    Timeout(u8),
    /// The device answered, but not as the protocol expects.
    BadReply(String),
}

impl HidError {
    /// The message this error displays.
    pub open spec fn message_spec(&self) -> Seq<char> {
        match self {
            HidError::Open(path, why) => "open "@ + path@ + ": "@ + why@,
            HidError::Io(why) => "io error: "@ + why@,
            HidError::ShortWrite(n, len) => "short write ("@ + dec(*n as nat) + " of "@ + dec(
                *len as nat,
            ) + " bytes)"@,
            HidError::Poll(why) => "poll: "@ + why@,
            HidError::Timeout(id) => "timeout waiting for report 0x"@ + hex_pad(*id as nat, 2),
            HidError::BadReply(why) => "bad reply: "@ + why@,
        }
    }

    /// Human-readable message (what `Display` printed).
    pub fn message(&self) -> (s: String)
        ensures
            s@ == self.message_spec(),
    {
        match self {
            HidError::Open(path, why) => {
                let mut s = string_of("open ");
                s.append(path.as_str());
                s.append(": ");
                s.append(why.as_str());
                s
            },
            HidError::Io(why) => {
                let mut s = string_of("io error: ");
                s.append(why.as_str());
                s
            },
            HidError::ShortWrite(n, len) => {
                let mut s = string_of("short write (");
                append_radix(&mut s, *n as u64, 10);
                s.append(" of ");
                append_radix(&mut s, *len as u64, 10);
                s.append(" bytes)");
                s
            },
            HidError::Poll(why) => {
                let mut s = string_of("poll: ");
                s.append(why.as_str());
                s
            },
            HidError::Timeout(id) => {
                let mut s = string_of("timeout waiting for report 0x");
                append_hex_pad(&mut s, *id as u64, 2);
                s
            },
            HidError::BadReply(why) => {
                let mut s = string_of("bad reply: ");
                s.append(why.as_str());
                s
            },
        }
    }
}

/// One exchange with the device: the request as sent and what came back.
pub enum Exchange {
    /// Long-channel read of `cmd` with `payload`.
    Read { cmd: u8, payload: Seq<u8>, reply: Result<Seq<u8>, HidError> },
    /// Short-channel write of `cmd` with `payload`; the reply is (ack ok, bytes).
    Write { cmd: u8, payload: Seq<u8>, reply: Result<(bool, Seq<u8>), HidError> },
    /// Long-channel write of `cmd` with `payload`, acked on the short channel.
    LongWrite { cmd: u8, payload: Seq<u8>, reply: Result<(bool, Seq<u8>), HidError> },
    /// Long-channel write of a raw `payload`.
    RawWrite { payload: Seq<u8>, reply: Result<Seq<u8>, HidError> },
}

/// The exchanges of a device, oldest first.
pub type ExchangeLog = Seq<Exchange>;

/// A read reply by its bytes.
pub open spec fn bytes_of(r: Result<Vec<u8>, HidError>) -> Result<Seq<u8>, HidError> {
    match r {
        Ok(v) => Ok(v@),
        Err(e) => Err(e),
    }
}

/// A write reply by its ack flag and bytes.
pub open spec fn ack_of(r: Result<(bool, Vec<u8>), HidError>) -> Result<(bool, Seq<u8>), HidError> {
    match r {
        Ok((ok, v)) => Ok((ok, v@)),
        Err(e) => Err(e),
    }
}

/// `after` is `before` with exchanges appended.
pub open spec fn extends(before: ExchangeLog, after: ExchangeLog) -> bool {
    before.is_prefix_of(after)
}

/// The exchanges appended to `before` to give `after`.
pub open spec fn added(before: ExchangeLog, after: ExchangeLog) -> ExchangeLog {
    after.skip(before.len() as int)
}

/// Nothing was exchanged.
pub proof fn lemma_log_same(a: ExchangeLog)
    ensures
        extends(a, a),
        added(a, a) == Seq::<Exchange>::empty(),
{
    assert(added(a, a) =~= Seq::<Exchange>::empty());
}

/// One more exchange after `mid`.
pub proof fn lemma_log_push(before: ExchangeLog, mid: ExchangeLog, x: Exchange)
    requires
        extends(before, mid),
    ensures
        extends(before, mid.push(x)),
        added(before, mid.push(x)) == added(before, mid).push(x),
{
    assert(added(before, mid.push(x)) =~= added(before, mid).push(x));
}

/// Exchanges compose: what came after `b` follows what came after `a`.
pub proof fn lemma_log_chain(a: ExchangeLog, b: ExchangeLog, c: ExchangeLog)
    requires
        extends(a, b),
        extends(b, c),
    ensures
        extends(a, c),
        added(a, c) == added(a, b) + added(b, c),
{
    assert(added(a, c) =~= added(a, b) + added(b, c));
}

/// An exchange `x` followed by more: the log after `before` starts with `x`,
/// and the rest is what came after `before.push(x)`.
pub proof fn lemma_log_then(before: ExchangeLog, x: Exchange, after: ExchangeLog)
    requires
        extends(before.push(x), after),
    ensures
        extends(before, after),
        added(before, after).len() >= 1,
        added(before, after)[0] == x,
        added(before, after).skip(1) == added(before.push(x), after),
{
    assert(before.push(x)[before.len() as int] == x);
    assert(added(before, after).skip(1) =~= added(before.push(x), after));
}

/// A log one exchange longer than `before` that extends it is `before`
/// with its last exchange pushed.
pub proof fn lemma_log_one_more(before: ExchangeLog, after: ExchangeLog)
    requires
        extends(before, after),
        after.len() == before.len() + 1,
    ensures
        after == before.push(after.last()),
{
    assert(after =~= before.push(after.last()));
}

/// What came after `a` splits at `b`: first what came before `b`, then
/// what came after it.
pub proof fn lemma_log_split(a: ExchangeLog, b: ExchangeLog, c: ExchangeLog)
    requires
        extends(a, b),
        extends(b, c),
    ensures
        extends(a, c),
        added(a, b).len() <= added(a, c).len(),
        added(a, c).take(added(a, b).len() as int) == added(a, b),
        added(a, c).skip(added(a, b).len() as int) == added(b, c),
{
    assert(added(a, c).take(added(a, b).len() as int) =~= added(a, b));
    assert(added(a, c).skip(added(a, b).len() as int) =~= added(b, c));
}

/// `x` is a long-channel read of `cmd` with `payload`.
pub open spec fn read_of(x: Exchange, cmd: u8, payload: Seq<u8>) -> bool {
    x is Read && x->Read_cmd == cmd && x->Read_payload == payload
}

/// `x` is a short-channel write of `cmd` with `payload`.
pub open spec fn write_of(x: Exchange, cmd: u8, payload: Seq<u8>) -> bool {
    x is Write && x->Write_cmd == cmd && x->Write_payload == payload
}

/// `x` is a long-channel write of `cmd` with `payload`.
pub open spec fn long_write_of(x: Exchange, cmd: u8, payload: Seq<u8>) -> bool {
    x is LongWrite && x->LongWrite_cmd == cmd && x->LongWrite_payload == payload
}

/// `x` is a raw long-channel write of `payload`.
pub open spec fn raw_write_of(x: Exchange, payload: Seq<u8>) -> bool {
    x is RawWrite && x->RawWrite_payload == payload
}

/// `d` starts with the long-channel read of (`cmd`, `payload`): a transport
/// error ends the operation with that error; a reply goes on with `then`,
/// given the reply bytes and the exchanges after the read.
pub open spec fn read_step<T>(
    d: ExchangeLog,
    cmd: u8,
    payload: Seq<u8>,
    res: Result<T, HidError>,
    then: spec_fn(Seq<u8>, ExchangeLog) -> bool,
) -> bool {
    d.len() >= 1 && read_of(d[0], cmd, payload) && match d[0]->Read_reply {
        Err(e) => d.len() == 1 && res == Err::<T, HidError>(e),
        Ok(b) => then(b, d.skip(1)),
    }
}

/// The single exchange `x` after `before`.
pub proof fn lemma_log_one(before: ExchangeLog, x: Exchange)
    ensures
        extends(before, before.push(x)),
        added(before, before.push(x)) == seq![x],
{
    assert(added(before, before.push(x)) =~= seq![x]);
}

/// `res` is the protocol refusal with message `m`.
pub open spec fn refused<T>(res: Result<T, HidError>, m: Seq<char>) -> bool {
    res matches Err(HidError::BadReply(x)) && x@ == m
}

/// `res` is the refusal `"{what} rejected: {reply}"`.
pub open spec fn rejected<T>(res: Result<T, HidError>, what: Seq<char>, resp: Seq<u8>) -> bool {
    refused(res, what + " rejected: "@ + hex_list(resp))
}

/// The write outcome for the ack `reply`: a transport error ends the
/// operation with that error, a refused ack with `"{what} rejected: …"`, and
/// an acked write goes on with `rest` (the exchanges after it).
pub open spec fn after_ack<T>(
    reply: Result<(bool, Seq<u8>), HidError>,
    rest: ExchangeLog,
    what: Seq<char>,
    res: Result<T, HidError>,
    then: spec_fn(ExchangeLog) -> bool,
) -> bool {
    match reply {
        Err(e) => rest.len() == 0 && res == Err::<T, HidError>(e),
        Ok((ok, resp)) => if ok {
            then(rest)
        } else {
            rest.len() == 0 && rejected(res, what, resp)
        },
    }
}

/// `d` starts with the short-channel write of (`cmd`, `payload`), handled
/// as [`after_ack`] says.
pub open spec fn write_step<T>(
    d: ExchangeLog,
    cmd: u8,
    payload: Seq<u8>,
    what: Seq<char>,
    res: Result<T, HidError>,
    then: spec_fn(ExchangeLog) -> bool,
) -> bool {
    d.len() >= 1 && write_of(d[0], cmd, payload) && after_ack(
        d[0]->Write_reply,
        d.skip(1),
        what,
        res,
        then,
    )
}

/// `d` starts with the long-channel write of (`cmd`, `payload`), handled
/// as [`after_ack`] says.
pub open spec fn long_write_step<T>(
    d: ExchangeLog,
    cmd: u8,
    payload: Seq<u8>,
    what: Seq<char>,
    res: Result<T, HidError>,
    then: spec_fn(ExchangeLog) -> bool,
) -> bool {
    d.len() >= 1 && long_write_of(d[0], cmd, payload) && after_ack(
        d[0]->LongWrite_reply,
        d.skip(1),
        what,
        res,
        then,
    )
}

/// Keychron command transport: long (GET) and short (SET) channels.
/// Implemented by the hidraw device and by scripted fakes in tests. Each
/// call appends one exchange, request and reply, to the device's log.
pub trait Hid {
    /// Every exchange with the device so far, oldest first.
    spec fn log(&self) -> ExchangeLog;

    /// Long-channel READ: `0xB3[cmd, payload…]` -> `0xB4` reply (incl. report id).
    fn get(&mut self, cmd: u8, payload: &[u8]) -> (r: Result<Vec<u8>, HidError>)
        ensures
            final(self).log() == old(self).log().push(
                Exchange::Read { cmd, payload: payload@, reply: bytes_of(r) },
            ),
    ;

    /// Short-channel WRITE: `0xB5[cmd, payload…]` -> `0xB6` ack. Returns (ok, reply).
    fn set(&mut self, cmd: u8, payload: &[u8]) -> (r: Result<(bool, Vec<u8>), HidError>)
        ensures
            final(self).log() == old(self).log().push(
                Exchange::Write { cmd, payload: payload@, reply: ack_of(r) },
            ),
    ;

    /// WRITE on the long channel (`0xB3`), ack on short (`0xB6` = `E4 00 cmd`).
    fn long_set(&mut self, cmd: u8, payload: &[u8]) -> (r: Result<(bool, Vec<u8>), HidError>)
        ensures
            final(self).log() == old(self).log().push(
                Exchange::LongWrite { cmd, payload: payload@, reply: ack_of(r) },
            ),
    ;

    /// WRITE an arbitrary payload on the long channel, return the short reply.
    fn long_raw(&mut self, payload: &[u8]) -> (r: Result<Vec<u8>, HidError>)
        ensures
            final(self).log() == old(self).log().push(
                Exchange::RawWrite { payload: payload@, reply: bytes_of(r) },
            ),
    ;
}

} // verus!
