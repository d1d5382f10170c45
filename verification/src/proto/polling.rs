//! Polling-rate read/write (cmd 0x06 read, 0x41 write). Launcher "Levels: 6":
//! 0=125 1=500 2=1000 3=2000 4=4000 5=8000 (no 250). Every write reads back
//! and confirms.

use vstd::prelude::*;

use crate::hid::{
    added, extends, lemma_log_one, lemma_log_same, lemma_log_then, read_step,
    read_of, refused, write_of, write_step, ExchangeLog, Hid, HidError,
};
use crate::proto::rejection;
use crate::text::{append_hex_list, append_radix, dec, hex_list, string_of};

verus! {

/// Supported rates in Hz, indexed by the device's rate code.
pub const RATES_HZ: [u32; 6] = [125, 500, 1000, 2000, 4000, 8000];

pub const CMD_GET_BLOCK: u8 = 0x06;
pub const CMD_SET_RATE: u8 = 0x41;
/// r[3]: high nibble = rate code, low nibble = active profile.
pub const RATE_OFF: usize = 3;

/// The rate table as a sequence, for contracts.
pub open spec fn rates_hz() -> Seq<u32> {
    seq![125u32, 500u32, 1000u32, 2000u32, 4000u32, 8000u32]
}

/// Hz for a rate code; `None` past the table.
pub fn hz_from_code(code: u8) -> (r: Option<u32>)
    ensures
        (code as int) < 6 ==> r == Some(rates_hz()[code as int]),
        (code as int) >= 6 ==> r is None,
{
    let rates = RATES_HZ;
    assert(rates@ == rates_hz());
    if (code as usize) < rates.len() {
        Some(rates[code as usize])
    } else {
        None
    }
}

/// Rate code for a rate in Hz; `None` for an unsupported rate.
pub fn code_from_hz(hz: u32) -> (r: Option<u8>)
    ensures
        r matches Some(c) ==> (c as int) < 6 && rates_hz()[c as int] == hz,
        r is None <==> forall|i: int| 0 <= i < 6 ==> rates_hz()[i] != hz,
{
    let rates = RATES_HZ;
    assert(rates@ == rates_hz());
    let mut i: usize = 0;
    while i < 6
        invariant
            i <= 6,
            rates@ == rates_hz(),
            forall|k: int| 0 <= k < i ==> rates_hz()[k] != hz,
        decreases 6 - i,
    {
        if rates[i] == hz {
            return Some(i as u8);
        }
        i = i + 1;
    }
    None
}

/// Code and rate map one-to-one: each code's rate maps back to the code, and
/// each supported rate's code maps back to the rate.
pub proof fn lemma_code_hz_roundtrip(code: u8, hz: u32)
    ensures
        (code as int) < 6 ==> forall|c: u8|
            (c as int) < 6 && rates_hz()[c as int] == rates_hz()[code as int] ==> c == code,
        (exists|i: int| 0 <= i < 6 && rates_hz()[i] == hz) ==> exists|c: u8|
            (c as int) < 6 && rates_hz()[c as int] == hz,
{
    if exists|i: int| 0 <= i < 6 && rates_hz()[i] == hz {
        let i = choose|i: int| 0 <= i < 6 && rates_hz()[i] == hz;
        assert(rates_hz()[(i as u8) as int] == hz);
    }
}

/// Whether `r` is a block reply carrying the rate byte.
pub open spec fn is_rate_reply(r: Seq<u8>) -> bool {
    r.len() > RATE_OFF && r[1] == CMD_GET_BLOCK
}

/// Decode the current rate code from a block reply.
pub fn parse_rate_reply(r: &[u8]) -> (res: Result<u8, HidError>)
    ensures
        !is_rate_reply(r@) ==> (res matches Err(HidError::BadReply(m)) && m@
            == "polling get: unexpected reply "@ + hex_list(r@)),
        is_rate_reply(r@) ==> res == Ok::<u8, HidError>(r@[3] >> 4),
{
    if r.len() <= RATE_OFF || r[1] != CMD_GET_BLOCK {
        let mut m = string_of("polling get: unexpected reply ");
        append_hex_list(&mut m, r);
        return Err(HidError::BadReply(m));
    }
    Ok(r[RATE_OFF] >> 4)
}

/// What a rate read whose reply was `b` leads to: a reply that is not a
/// block ends the operation with that refusal; else `then` goes on with the
/// rate code (high nibble of `b[3]`) and the exchanges after.
pub open spec fn on_rate<T>(
    b: Seq<u8>,
    rest: ExchangeLog,
    res: Result<T, HidError>,
    then: spec_fn(u8, ExchangeLog) -> bool,
) -> bool {
    if !is_rate_reply(b) {
        rest.len() == 0 && refused(res, "polling get: unexpected reply "@ + hex_list(b))
    } else {
        then(b[3] >> 4, rest)
    }
}

/// `d` starts with the block read that carries the rate (long cmd 0x06,
/// empty payload), handled as [`on_rate`] says.
pub open spec fn rate_step<T>(
    d: ExchangeLog,
    res: Result<T, HidError>,
    then: spec_fn(u8, ExchangeLog) -> bool,
) -> bool {
    read_step(d, CMD_GET_BLOCK, seq![], res, |b: Seq<u8>, rest: ExchangeLog| on_rate(b, rest, res, then))
}

/// Current rate code, as the device's block reply carries it: one block
/// read, whose reply decides the result as [`on_rate`] says.
pub fn get_rate_code<H: Hid>(dev: &mut H) -> (res: Result<u8, HidError>)
    ensures
        extends(old(dev).log(), final(dev).log()),
        final(dev).log().len() == old(dev).log().len() + 1,
        rate_step(
            added(old(dev).log(), final(dev).log()),
            res,
            |c: u8, rest: ExchangeLog| rest.len() == 0 && res == Ok::<u8, HidError>(c),
        ),
        res matches Ok(c) ==> c < 16,
{
    let ghost l0 = dev.log();
    let empty: [u8; 0] = [];
    let got = dev.get(CMD_GET_BLOCK, &empty);
    proof {
        assert(empty@ =~= Seq::<u8>::empty());
        lemma_log_one(l0, dev.log().last());
        assert(dev.log() =~= l0.push(dev.log().last()));
        assert(added(l0, dev.log()).skip(1) =~= Seq::<crate::hid::Exchange>::empty());
    }
    match got {
        Err(e) => Err(e),
        Ok(r) => {
            let res = parse_rate_reply(r.as_slice());
            proof {
                if res is Ok {
                    let b = r@[3];
                    assert(b >> 4 < 16) by (bit_vector);
                }
            }
            res
        },
    }
}

/// SET payload (after the cmd byte): `[code, code, 0x00, 1,2,3,4,5,6]`; the
/// tail is a constant the Launcher appends.
pub fn set_payload(code: u8) -> (p: Vec<u8>)
    ensures
        p@ == seq![code, code, 0u8, 1u8, 2u8, 3u8, 4u8, 5u8, 6u8],
{
    let p = vec![code, code, 0x00, 1, 2, 3, 4, 5, 6];
    assert(p@ =~= seq![code, code, 0u8, 1u8, 2u8, 3u8, 4u8, 5u8, 6u8]);
    p
}

/// Message for an unsupported rate.
pub open spec fn unsupported_rate_message(hz: u32) -> Seq<char> {
    "unsupported rate "@ + dec(hz as nat) + "; choose [125, 500, 1000, 2000, 4000, 8000]"@
}

/// The exchanges of a rate write with code `code`: the write
/// `(0x41, [code, code, 0, 1, 2, 3, 4, 5, 6])`; once acked, a block read
/// whose rate code must be `code`.
pub open spec fn set_rate_exchanges(d: ExchangeLog, code: u8, hz: u32, res: Result<u32, HidError>) -> bool {
    write_step(
        d,
        CMD_SET_RATE,
        seq![code, code, 0u8, 1u8, 2u8, 3u8, 4u8, 5u8, 6u8],
        "polling set"@,
        res,
        |rest: ExchangeLog|
            rate_step(
                rest,
                res,
                |c: u8, tail: ExchangeLog|
                    tail.len() == 0 && (if c == code {
                        res == Ok::<u32, HidError>(hz)
                    } else {
                        refused(
                            res,
                            "polling set unconfirmed: wanted code "@ + dec(code as nat)
                                + ", read "@ + dec(c as nat),
                        )
                    }),
            ),
    )
}

/// What a rate write does: an unsupported rate is refused with nothing
/// exchanged; else the exchanges of [`set_rate_exchanges`] for its code.
pub open spec fn set_rate_outcome(d: ExchangeLog, hz: u32, res: Result<u32, HidError>) -> bool {
    if forall|i: int| 0 <= i < 6 ==> rates_hz()[i] != hz {
        d.len() == 0 && refused(res, unsupported_rate_message(hz))
    } else {
        exists|c: u8|
            (c as int) < 6 && #[trigger] rates_hz()[c as int] == hz && set_rate_exchanges(d, c, hz, res)
    }
}

/// Set the polling rate to `hz`. Re-reads to confirm. An unsupported rate is
/// refused before any transfer.
pub fn set_rate<H: Hid>(dev: &mut H, hz: u32) -> (res: Result<u32, HidError>)
    ensures
        (forall|i: int| 0 <= i < 6 ==> rates_hz()[i] != hz) ==> (refused(
            res,
            unsupported_rate_message(hz),
        ) && *final(dev) == *old(dev)),
        forall|c: u8|
            (c as int) < 6 && #[trigger] rates_hz()[c as int] == hz ==> extends(
                old(dev).log(),
                final(dev).log(),
            ) && set_rate_exchanges(added(old(dev).log(), final(dev).log()), c, hz, res),
        extends(old(dev).log(), final(dev).log()),
        set_rate_outcome(added(old(dev).log(), final(dev).log()), hz, res),
        res matches Ok(v) ==> v == hz,
{
    proof {
        lemma_log_same(dev.log());
    }
    let code = match code_from_hz(hz) {
        Some(c) => c,
        None => {
            let mut m = string_of("unsupported rate ");
            append_radix(&mut m, hz as u64, 10);
            m.append("; choose [125, 500, 1000, 2000, 4000, 8000]");
            return Err(HidError::BadReply(m));
        },
    };
    proof {
        lemma_code_hz_roundtrip(code, hz);
    }
    let ghost l0 = dev.log();
    let payload = set_payload(code);
    let sent = dev.set(CMD_SET_RATE, payload.as_slice());
    let ghost l1 = dev.log();
    proof {
        lemma_log_same(l1);
        lemma_log_then(l0, l1.last(), l1);
    }
    let (ok, resp) = match sent {
        Ok(p) => p,
        Err(e) => return Err(e),
    };
    if !ok {
        return rejection("polling set", resp.as_slice());
    }
    let got = get_rate_code(dev);
    proof {
        lemma_log_then(l0, l1.last(), dev.log());
    }
    let after = match got {
        Ok(c) => c,
        Err(e) => return Err(e),
    };
    if after != code {
        let mut m = string_of("polling set unconfirmed: wanted code ");
        append_radix(&mut m, code as u64, 10);
        m.append(", read ");
        append_radix(&mut m, after as u64, 10);
        return Err(HidError::BadReply(m));
    }
    Ok(hz)
}

/// A confirmed rate write was read back: it took exactly the acked write of
/// the rate's code and a block read whose rate code is that code.
pub proof fn confirmed_rate_write_was_read_back(d: ExchangeLog, hz: u32, res: Result<u32, HidError>)
    requires
        set_rate_outcome(d, hz, res),
        res is Ok,
    ensures
        exists|c: u8|
            (c as int) < 6 && #[trigger] rates_hz()[c as int] == hz && d.len() == 2 && write_of(
                d[0],
                CMD_SET_RATE,
                seq![c, c, 0u8, 1u8, 2u8, 3u8, 4u8, 5u8, 6u8],
            ) && (d[0]->Write_reply matches Ok((ok, _)) && ok) && read_of(
                d[1],
                CMD_GET_BLOCK,
                seq![],
            ) && (d[1]->Read_reply matches Ok(b) && is_rate_reply(b) && b[3] >> 4 == c),
{
    assert(d.skip(1)[0] == d[1]);
}

} // verus!
