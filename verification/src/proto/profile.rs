//! Device profile switch (cmd 0x0E, short channel): `[0x0E, index, count]`,
//! index 0-based, count = number of profiles. Read-back confirms via the
//! block's `profile.current`.

use vstd::prelude::*;

use crate::hid::{
    added, extends, lemma_log_one_more, lemma_log_same, lemma_log_then, read_of, refused,
    write_step, ExchangeLog, Hid, HidError,
};
use crate::proto::block::{block_step, is_block_reply, read_all, Settings, CMD_GET_BLOCK, MIN_BODY};
use crate::proto::{confirm_value, confirmed, rejection};
use crate::text::{append_radix, dec, string_of};

verus! {

pub const CMD_PROFILE: u8 = 0x0E;

/// Number of profiles a block reports; 0 means the default of 5.
pub open spec fn profile_count_of(reported: u8) -> u8 {
    if reported == 0 {
        5
    } else {
        reported
    }
}

/// The profile count a switch to `index` sends, for a block reporting
/// `reported` profiles; an index past the count is refused with
/// `"profile {index} out of range 0..{count}"`.
pub fn profile_range(index: u8, reported: u8) -> (r: Result<u8, HidError>)
    ensures
        index < profile_count_of(reported) ==> r == Ok::<u8, HidError>(profile_count_of(reported)),
        index >= profile_count_of(reported) ==> (r matches Err(HidError::BadReply(m)) && m@
            == "profile "@ + dec(index as nat) + " out of range 0.."@ + dec(
            profile_count_of(reported) as nat,
        )),
{
    let count = if reported == 0 {
        5
    } else {
        reported
    };
    if index >= count {
        let mut m = string_of("profile ");
        append_radix(&mut m, index as u64, 10);
        m.append(" out of range 0..");
        append_radix(&mut m, count as u64, 10);
        return Err(HidError::BadReply(m));
    }
    Ok(count)
}

/// The exchanges of a profile switch: a block read giving the profile
/// count; an index past it is refused; else the write
/// `(0x0E, [index, count])` and, once acked, a second block read whose
/// current profile must be `index`.
pub open spec fn set_profile_exchanges(d: ExchangeLog, index: u8, res: Result<u8, HidError>) -> bool {
    block_step(
        d,
        res,
        |cur: Settings, rest: ExchangeLog|
            if index >= profile_count_of(cur.profile.count) {
                rest.len() == 0 && refused(
                    res,
                    "profile "@ + dec(index as nat) + " out of range 0.."@ + dec(
                        profile_count_of(cur.profile.count) as nat,
                    ),
                )
            } else {
                write_step(
                    rest,
                    CMD_PROFILE,
                    seq![index, profile_count_of(cur.profile.count)],
                    "profile set"@,
                    res,
                    |rest2: ExchangeLog|
                        block_step(
                            rest2,
                            res,
                            |after: Settings, tail: ExchangeLog|
                                tail.len() == 0 && confirmed(
                                    res,
                                    "profile set"@,
                                    index,
                                    after.profile.current,
                                ),
                        ),
                )
            },
    )
}

/// Switch to profile `index` (0-based). Re-reads to confirm.
pub fn set_profile<H: Hid>(dev: &mut H, index: u8) -> (res: Result<u8, HidError>)
    ensures
        extends(old(dev).log(), final(dev).log()),
        set_profile_exchanges(added(old(dev).log(), final(dev).log()), index, res),
        res matches Ok(v) ==> v == index,
{
    let ghost l0 = dev.log();
    let first = read_all(dev);
    let ghost l1 = dev.log();
    proof {
        lemma_log_one_more(l0, l1);
        lemma_log_same(l1);
        lemma_log_then(l0, l1.last(), l1);
    }
    let cur = match first {
        Ok(c) => c,
        Err(e) => return Err(e),
    };
    let count = match profile_range(index, cur.profile.count) {
        Ok(c) => c,
        Err(e) => return Err(e),
    };
    let payload = [index, count];
    let sent = dev.set(CMD_PROFILE, &payload);
    let ghost l2 = dev.log();
    proof {
        assert(payload@ =~= seq![index, count]);
        lemma_log_same(l2);
        lemma_log_then(l1, l2.last(), l2);
        lemma_log_then(l0, l1.last(), l2);
    }
    let (ok, resp) = match sent {
        Ok(p) => p,
        Err(e) => return Err(e),
    };
    if !ok {
        return rejection("profile set", resp.as_slice());
    }
    let second = read_all(dev);
    let ghost l3 = dev.log();
    proof {
        lemma_log_then(l1, l2.last(), l3);
        lemma_log_then(l0, l1.last(), l3);
    }
    let after_block = match second {
        Ok(a) => a,
        Err(e) => return Err(e),
    };
    confirm_value("profile set", index, after_block.profile.current)
}

/// A confirmed profile switch was read back: it took exactly a block read,
/// the acked write of `(0x0E, [index, count])`, and a second block read
/// whose current profile is `index`.
pub proof fn confirmed_profile_switch_was_read_back(d: ExchangeLog, index: u8, res: Result<u8, HidError>)
    requires
        set_profile_exchanges(d, index, res),
        res is Ok,
    ensures
        d.len() == 3,
        read_of(d[0], CMD_GET_BLOCK, seq![]),
        d[1] is Write && d[1]->Write_cmd == CMD_PROFILE && d[1]->Write_payload[0] == index,
        d[1]->Write_reply matches Ok((ok, _)) && ok,
        read_of(d[2], CMD_GET_BLOCK, seq![]),
        d[2]->Read_reply matches Ok(b) && is_block_reply(b) && b.len() - 1 >= MIN_BODY && b[2]
            == index,
{
    assert(d.skip(1)[0] == d[1]);
    assert(d.skip(1).skip(1)[0] == d[2]);
}

} // verus!
