//! System params: debounce (0x43), sleep (0x0A), factory reset (0x0F).
//! Debounce and sleep read back and confirm.

use vstd::prelude::*;

use crate::hid::{
    added, extends, lemma_log_same, lemma_log_then, read_of, write_of, write_step, ExchangeLog, Hid,
    HidError,
};
use crate::proto::block::{block_step, is_block_reply, read_all, Settings, CMD_GET_BLOCK, MIN_BODY};
use crate::proto::{confirm_value, confirmed, rejection};

verus! {

pub const CMD_SLEEP: u8 = 0x0A;
pub const CMD_DEBOUNCE: u8 = 0x43;
pub const CMD_RESET: u8 = 0x0F;

/// The exchanges of a debounce write: one write of `(0x43, [ms])`; once
/// acked, one block read whose debounce must be `ms`.
pub open spec fn set_debounce_outcome(d: ExchangeLog, ms: u8, res: Result<u8, HidError>) -> bool {
    write_step(
        d,
        CMD_DEBOUNCE,
        seq![ms],
        "debounce set"@,
        res,
        |rest: ExchangeLog|
            block_step(
                rest,
                res,
                |s: Settings, tail: ExchangeLog|
                    tail.len() == 0 && confirmed(res, "debounce"@, ms, s.debounce.value),
            ),
    )
}

/// The exchanges of a sleep write: one write of `(0x0A, [1, minutes])`;
/// once acked, one block read whose sleep timeout must be `minutes`.
pub open spec fn set_sleep_outcome(d: ExchangeLog, minutes: u8, res: Result<u8, HidError>) -> bool {
    write_step(
        d,
        CMD_SLEEP,
        seq![1u8, minutes],
        "sleep set"@,
        res,
        |rest: ExchangeLog|
            block_step(
                rest,
                res,
                |s: Settings, tail: ExchangeLog|
                    tail.len() == 0 && confirmed(res, "sleep"@, minutes, s.sleep_min),
            ),
    )
}

/// The exchanges of a factory reset: one write of `(0x0F, [255])`, whose
/// acknowledgement decides the outcome.
pub open spec fn factory_reset_outcome(d: ExchangeLog, res: Result<(), HidError>) -> bool {
    write_step(
        d,
        CMD_RESET,
        seq![255u8],
        "factory reset"@,
        res,
        |rest: ExchangeLog| rest.len() == 0 && res is Ok,
    )
}

/// Set the debounce time in ms. Re-reads to confirm: one write of
/// `(0x43, [ms])`; once acked, one block read whose debounce must be `ms`.
pub fn set_debounce<H: Hid>(dev: &mut H, ms: u8) -> (res: Result<u8, HidError>)
    ensures
        extends(old(dev).log(), final(dev).log()),
        set_debounce_outcome(added(old(dev).log(), final(dev).log()), ms, res),
        res matches Ok(v) ==> v == ms,
{
    let ghost l0 = dev.log();
    let payload = [ms];
    let sent = dev.set(CMD_DEBOUNCE, &payload);
    let ghost l1 = dev.log();
    proof {
        assert(payload@ =~= seq![ms]);
        lemma_log_same(l1);
        lemma_log_then(l0, l1.last(), l1);
    }
    let (ok, resp) = match sent {
        Ok(p) => p,
        Err(e) => return Err(e),
    };
    if !ok {
        return rejection("debounce set", resp.as_slice());
    }
    let got = read_all(dev);
    proof {
        lemma_log_then(l0, l1.last(), dev.log());
    }
    let block = match got {
        Ok(b) => b,
        Err(e) => return Err(e),
    };
    confirm_value("debounce", ms, block.debounce.value)
}

/// Idle sleep timeout in MINUTES (Launcher range 1–240). Re-reads to
/// confirm: one write of `(0x0A, [1, minutes])`; once acked, one block read
/// whose sleep timeout must be `minutes`.
pub fn set_sleep<H: Hid>(dev: &mut H, minutes: u8) -> (res: Result<u8, HidError>)
    ensures
        extends(old(dev).log(), final(dev).log()),
        set_sleep_outcome(added(old(dev).log(), final(dev).log()), minutes, res),
        res matches Ok(v) ==> v == minutes,
{
    let ghost l0 = dev.log();
    let payload = [1, minutes];
    let sent = dev.set(CMD_SLEEP, &payload);
    let ghost l1 = dev.log();
    proof {
        assert(payload@ =~= seq![1u8, minutes]);
        lemma_log_same(l1);
        lemma_log_then(l0, l1.last(), l1);
    }
    let (ok, resp) = match sent {
        Ok(p) => p,
        Err(e) => return Err(e),
    };
    if !ok {
        return rejection("sleep set", resp.as_slice());
    }
    let got = read_all(dev);
    proof {
        lemma_log_then(l0, l1.last(), dev.log());
    }
    let block = match got {
        Ok(b) => b,
        Err(e) => return Err(e),
    };
    confirm_value("sleep", minutes, block.sleep_min)
}

/// Factory reset, all categories (DESTRUCTIVE): one write of
/// `(0x0F, [255])`, whose acknowledgement decides the outcome.
pub fn factory_reset<H: Hid>(dev: &mut H) -> (res: Result<(), HidError>)
    ensures
        extends(old(dev).log(), final(dev).log()),
        factory_reset_outcome(added(old(dev).log(), final(dev).log()), res),
{
    let ghost l0 = dev.log();
    let payload = [255];
    let sent = dev.set(CMD_RESET, &payload);
    let ghost l1 = dev.log();
    proof {
        assert(payload@ =~= seq![255u8]);
        lemma_log_same(l1);
        lemma_log_then(l0, l1.last(), l1);
    }
    match sent {
        Ok((ok, resp)) => if ok {
            Ok(())
        } else {
            rejection("factory reset", resp.as_slice())
        },
        Err(e) => Err(e),
    }
}

/// A confirmed debounce write was read back: it took exactly the acked
/// write of `(0x43, [ms])` and a block read whose debounce byte is `ms`.
pub proof fn confirmed_debounce_write_was_read_back(d: ExchangeLog, ms: u8, res: Result<u8, HidError>)
    requires
        set_debounce_outcome(d, ms, res),
        res is Ok,
    ensures
        d.len() == 2,
        write_of(d[0], CMD_DEBOUNCE, seq![ms]),
        d[0]->Write_reply matches Ok((ok, _)) && ok,
        read_of(d[1], CMD_GET_BLOCK, seq![]),
        d[1]->Read_reply matches Ok(b) && is_block_reply(b) && b.len() - 1 >= MIN_BODY && b[18] == ms,
{
    assert(d.skip(1)[0] == d[1]);
}

/// A confirmed sleep write was read back: it took exactly the acked write
/// of `(0x0A, [1, minutes])` and a block read whose sleep byte is `minutes`.
pub proof fn confirmed_sleep_write_was_read_back(d: ExchangeLog, minutes: u8, res: Result<u8, HidError>)
    requires
        set_sleep_outcome(d, minutes, res),
        res is Ok,
    ensures
        d.len() == 2,
        write_of(d[0], CMD_SLEEP, seq![1u8, minutes]),
        d[0]->Write_reply matches Ok((ok, _)) && ok,
        read_of(d[1], CMD_GET_BLOCK, seq![]),
        d[1]->Read_reply matches Ok(b) && is_block_reply(b) && b.len() - 1 >= MIN_BODY && b[19]
            == minutes,
{
    assert(d.skip(1)[0] == d[1]);
}

} // verus!
