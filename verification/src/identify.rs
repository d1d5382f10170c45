//! Button identification: each present button is set to a macro that types
//! its own slot id, so pressing the physical buttons into a text editor
//! shows which slot each one is; afterwards every button gets its prior
//! assignment back. The prompts and the wait for the user belong to the
//! caller, between [`arm_identify`] and [`restore_identify`].

use vstd::prelude::*;

use crate::hid::{added, extends, lemma_log_chain, lemma_log_same, ExchangeLog, Hid, HidError};
use crate::proto::buttons::{
    self, confirmed, is_present, restore_outcome, set_button_outcome, ButtonInfo,
    EMPTY_DEFAULT_DATA, TYPE_DEFAULT,
};
use crate::proto::macros::{
    self, all_keycodes, frame_spec, keycodes_of, lemma_taps_len, set_macro_exchanges, taps_spec,
    CLASS_KEY, LOOP_STOP_ON_RELEASE, TYPE_MACRO,
};
use crate::text::{dec, dec_string, lemma_radix_len_log};

verus! {

/// A prior assignment: (slot id, type, data).
pub type Slot = (u8, u8, u32);

/// A real, configurable button (not an empty default slot).
pub open spec fn present_spec(b: ButtonInfo) -> bool {
    !(b.type_id == TYPE_DEFAULT && b.data == EMPTY_DEFAULT_DATA)
}

/// The present buttons of a table, in table order, by their assignments.
pub open spec fn targets_spec(v: Seq<ButtonInfo>) -> Seq<Slot>
    decreases v.len(),
{
    if v.len() == 0 {
        seq![]
    } else {
        let rest = targets_spec(v.drop_last());
        if present_spec(v.last()) {
            rest.push((v.last().id, v.last().type_id, v.last().data))
        } else {
            rest
        }
    }
}

/// The buttons to identify, with the assignments to restore afterwards.
pub fn identify_targets(original: &Vec<ButtonInfo>) -> (t: Vec<Slot>)
    ensures
        t@ == targets_spec(original@),
{
    let mut out: Vec<Slot> = Vec::new();
    let mut i: usize = 0;
    while i < original.len()
        invariant
            i <= original@.len(),
            out@ == targets_spec(original@.subrange(0, i as int)),
        decreases original@.len() - i,
    {
        let b = &original[i];
        assert(original@.subrange(0, i + 1).drop_last() =~= original@.subrange(0, i as int));
        if is_present(b) {
            out.push((b.id, b.type_id, b.data));
        }
        i = i + 1;
    }
    assert(original@.subrange(0, original@.len() as int) =~= original@);
    out
}

/// The key taps that type `id` in decimal.
pub open spec fn id_taps(id: u8) -> Seq<u8> {
    taps_spec(CLASS_KEY, keycodes_of(dec(id as nat)))
}

/// The exchanges between cuts `k` and `k + 1` of `d` upload to target `k`
/// the macro typing its id, confirmed as `armed[k]`.
pub open spec fn armed_at(
    d: ExchangeLog,
    targets: Seq<Slot>,
    armed: Seq<ButtonInfo>,
    cuts: Seq<int>,
    k: int,
) -> bool {
    let id = targets[k].0;
    0 <= cuts[k] <= cuts[k + 1] <= d.len() && set_macro_exchanges(
        d.subrange(cuts[k], cuts[k + 1]),
        frame_spec(id, id_taps(id), 1, LOOP_STOP_ON_RELEASE),
        id,
        Ok::<ButtonInfo, HidError>(armed[k]),
    )
}

/// The first `n` targets were armed, one after another in order, cut at
/// `cuts`, as `armed` says.
pub open spec fn arms_cut(
    d: ExchangeLog,
    targets: Seq<Slot>,
    armed: Seq<ButtonInfo>,
    cuts: Seq<int>,
    n: int,
) -> bool {
    &&& 0 <= n <= targets.len()
    &&& armed.len() == n
    &&& cuts.len() == n + 1
    &&& cuts[0] == 0
    &&& forall|k: int| 0 <= k < n ==> #[trigger] armed_at(d, targets, armed, cuts, k)
}

/// Arming stopped at target `j` with error `e`: the targets before it were
/// armed; then either its id has no key taps and nothing more was sent, or
/// its upload failed with `e`.
pub open spec fn arm_failed(
    d: ExchangeLog,
    targets: Seq<Slot>,
    armed: Seq<ButtonInfo>,
    cuts: Seq<int>,
    j: int,
    e: HidError,
) -> bool {
    let id = targets[j].0;
    &&& j < targets.len()
    &&& arms_cut(d, targets, armed, cuts, j)
    &&& cuts[j] <= d.len()
    &&& if all_keycodes(dec(id as nat)) {
        set_macro_exchanges(
            d.skip(cuts[j]),
            frame_spec(id, id_taps(id), 1, LOOP_STOP_ON_RELEASE),
            id,
            Err::<ButtonInfo, HidError>(e),
        )
    } else {
        cuts[j] == d.len()
    }
}

/// All of `targets` were armed, one after another in order, as `armed`
/// says, and nothing else was exchanged.
pub open spec fn armed_all(d: ExchangeLog, targets: Seq<Slot>, armed: Seq<ButtonInfo>) -> bool {
    exists|cuts: Seq<int>|
        #[trigger] arms_cut(d, targets, armed, cuts, targets.len() as int) && cuts.last() == d.len()
}

/// Arming stopped with error `e` at a target whose id is `id`.
pub open spec fn arm_stopped(d: ExchangeLog, targets: Seq<Slot>, id: u8, e: HidError) -> bool {
    exists|j: int, cuts: Seq<int>, done: Seq<ButtonInfo>|
        #[trigger] arm_failed(d, targets, done, cuts, j, e) && targets[j].0 == id
}

/// Sets every target to a macro typing its own id; stops at the first
/// failure and reports which slot it was. On success, each button read
/// back as a macro of its id's length, in target order.
pub fn arm_identify<H: Hid>(dev: &mut H, targets: &Vec<Slot>) -> (r: Result<
    Vec<ButtonInfo>,
    (u8, HidError),
>)
    ensures
        r matches Ok(v) ==> v@.len() == targets@.len() && forall|i: int|
            0 <= i < v@.len() ==> {
                let id = #[trigger] targets@[i].0;
                &&& v@[i].id == id
                &&& v@[i].type_id == TYPE_MACRO
                &&& v@[i].data == frame_spec(id, id_taps(id), 1, LOOP_STOP_ON_RELEASE)[3]
            },
        r matches Err((id, _)) ==> exists|i: int| 0 <= i < targets@.len() && #[trigger] targets@[i].0 == id,
        extends(old(dev).log(), final(dev).log()),
        r matches Ok(v) ==> armed_all(added(old(dev).log(), final(dev).log()), targets@, v@),
        r matches Err((id, e)) ==> arm_stopped(added(old(dev).log(), final(dev).log()), targets@, id, e),
{
    let ghost l0 = dev.log();
    let ghost mut cuts: Seq<int> = seq![0];
    proof {
        lemma_log_same(l0);
    }
    let mut armed: Vec<ButtonInfo> = Vec::new();
    let mut i: usize = 0;
    while i < targets.len()
        invariant
            i <= targets@.len(),
            armed@.len() == i,
            forall|k: int|
                0 <= k < i ==> {
                    let id = #[trigger] targets@[k].0;
                    &&& armed@[k].id == id
                    &&& armed@[k].type_id == TYPE_MACRO
                    &&& armed@[k].data == frame_spec(id, id_taps(id), 1, LOOP_STOP_ON_RELEASE)[3]
                },
            l0 == old(dev).log(),
            extends(l0, dev.log()),
            arms_cut(added(l0, dev.log()), targets@, armed@, cuts, i as int),
            cuts.last() == added(l0, dev.log()).len(),
        decreases targets@.len() - i,
    {
        let ghost li = dev.log();
        let id = targets[i].0;
        let digits = dec_string(id as u64);
        let events = match macros::text_events_lower(digits.as_str()) {
            Ok(ev) => ev,
            Err(e) => {
                assert(targets@[i as int].0 == id);
                proof {
                    assert(arm_failed(added(l0, dev.log()), targets@, armed@, cuts, i as int, e));
                    assert(arm_stopped(added(l0, dev.log()), targets@, id, e));
                }
                return Err((id, e));
            },
        };
        proof {
            lemma_taps_len(CLASS_KEY, keycodes_of(dec(id as nat)));
            vstd::arithmetic::power2::lemma2_to64();
            assert(vstd::arithmetic::power::pow(2, 8) == 256) by {
                vstd::arithmetic::power::lemma_pow_positive(2, 8);
                assert(vstd::arithmetic::power::pow(2, 8) == vstd::arithmetic::power2::pow2(8)) by {
                    vstd::arithmetic::power2::lemma_pow2(8);
                }
            }
            lemma_radix_len_log(id as nat, 10, 8);
        }
        let up = macros::set_macro(dev, id, events.as_slice());
        let ghost d0 = added(l0, li);
        let ghost d1 = added(l0, dev.log());
        proof {
            lemma_log_chain(l0, li, dev.log());
            assert(events@ == id_taps(id));
            assert forall|k: int| 0 <= k < i implies #[trigger] armed_at(d1, targets@, armed@, cuts, k) by {
                assert(armed_at(d0, targets@, armed@, cuts, k));
                assert(d1.subrange(cuts[k], cuts[k + 1]) =~= d0.subrange(cuts[k], cuts[k + 1]));
            }
            assert(d1.skip(d0.len() as int) =~= added(li, dev.log()));
            assert(d1.subrange(d0.len() as int, d1.len() as int) =~= added(li, dev.log()));
        }
        match up {
            Ok(b) => {
                let ghost before = armed@;
                armed.push(b);
                proof {
                    let cuts1 = cuts.push(d1.len() as int);
                    assert forall|k: int| 0 <= k < i + 1 implies #[trigger] armed_at(d1, targets@, armed@, cuts1, k) by {
                        if k < i {
                            assert(armed_at(d1, targets@, before, cuts, k));
                            assert(armed@[k] == before[k]);
                            assert(cuts1[k] == cuts[k] && cuts1[k + 1] == cuts[k + 1]);
                        } else {
                            assert(cuts1[k] == d0.len() && cuts1[k + 1] == d1.len());
                            assert(armed@[k] == b);
                        }
                    }
                    cuts = cuts1;
                }
            },
            Err(e) => {
                assert(targets@[i as int].0 == id);
                proof {
                    assert(arms_cut(d1, targets@, armed@, cuts, i as int));
                    assert(arm_failed(d1, targets@, armed@, cuts, i as int, e));
                    assert(arm_stopped(d1, targets@, id, e));
                }
                return Err((id, e));
            },
        }
        i = i + 1;
    }
    proof {
        assert(i == targets@.len());
        assert(arms_cut(added(l0, dev.log()), targets@, armed@, cuts, targets@.len() as int));
        assert(cuts.last() == added(l0, dev.log()).len());
        assert(armed_all(added(l0, dev.log()), targets@, armed@));
    }
    Ok(armed)
}

/// What putting `t` back does: a default restore for a default-type slot,
/// else a write of its prior type and data.
pub open spec fn restore_step(d: ExchangeLog, t: Slot, res: Result<ButtonInfo, HidError>) -> bool {
    if t.1 == TYPE_DEFAULT {
        restore_outcome(d, t.0, res)
    } else {
        set_button_outcome(d, t.0, t.1, t.2, res)
    }
}

/// The exchanges between cuts `i` and `i + 1` of `d` put target `i` back,
/// with result `r[i]`.
pub open spec fn restored_at(
    d: ExchangeLog,
    targets: Seq<Slot>,
    r: Seq<(u8, Result<ButtonInfo, HidError>)>,
    cuts: Seq<int>,
    i: int,
) -> bool {
    0 <= cuts[i] <= cuts[i + 1] <= d.len() && restore_step(
        d.subrange(cuts[i], cuts[i + 1]),
        targets[i],
        r[i].1,
    )
}

/// `d` is the restores of `targets`, one after another in order, cut at
/// `cuts`, with results `r`.
pub open spec fn restores_cut(
    d: ExchangeLog,
    targets: Seq<Slot>,
    r: Seq<(u8, Result<ButtonInfo, HidError>)>,
    cuts: Seq<int>,
) -> bool {
    &&& cuts.len() == targets.len() + 1
    &&& cuts[0] == 0
    &&& cuts.last() == d.len()
    &&& forall|i: int| 0 <= i < targets.len() ==> #[trigger] restored_at(d, targets, r, cuts, i)
}

/// Puts every target back: a default-type slot by a default restore
/// (confirmed as Default), any other by re-assigning its prior type and data. Every target is tried;
/// the results come back in target order.
pub fn restore_identify<H: Hid>(dev: &mut H, targets: &Vec<Slot>) -> (r: Vec<
    (u8, Result<ButtonInfo, HidError>),
>)
    ensures
        r@.len() == targets@.len(),
        forall|i: int|
            0 <= i < r@.len() ==> {
                let (id, t, data) = #[trigger] targets@[i];
                &&& r@[i].0 == id
                &&& (t != TYPE_DEFAULT && r@[i].1 is Ok) ==> confirmed(r@[i].1->Ok_0, id, t, data)
                &&& (t == TYPE_DEFAULT && r@[i].1 is Ok) ==> r@[i].1->Ok_0.id == id
                    && r@[i].1->Ok_0.type_id == TYPE_DEFAULT
            },
        extends(old(dev).log(), final(dev).log()),
        exists|cuts: Seq<int>|
            #[trigger] restores_cut(added(old(dev).log(), final(dev).log()), targets@, r@, cuts),
{
    let ghost l0 = dev.log();
    let ghost mut cuts: Seq<int> = seq![0];
    proof {
        lemma_log_same(l0);
    }
    let mut out: Vec<(u8, Result<ButtonInfo, HidError>)> = Vec::new();
    let mut i: usize = 0;
    while i < targets.len()
        invariant
            i <= targets@.len(),
            out@.len() == i,
            forall|k: int|
                0 <= k < i ==> {
                    let (id, t, data) = #[trigger] targets@[k];
                    &&& out@[k].0 == id
                    &&& (t != TYPE_DEFAULT && out@[k].1 is Ok) ==> confirmed(
                        out@[k].1->Ok_0,
                        id,
                        t,
                        data,
                    )
                    &&& (t == TYPE_DEFAULT && out@[k].1 is Ok) ==> out@[k].1->Ok_0.id == id
                        && out@[k].1->Ok_0.type_id == TYPE_DEFAULT
                },
            l0 == old(dev).log(),
            extends(l0, dev.log()),
            cuts.len() == i + 1,
            cuts[0] == 0,
            cuts.last() == added(l0, dev.log()).len(),
            forall|k: int| 0 <= k < i ==> #[trigger] restored_at(added(l0, dev.log()), targets@, out@, cuts, k),
        decreases targets@.len() - i,
    {
        let ghost li = dev.log();
        let (id, t, data) = targets[i];
        let res = if t == TYPE_DEFAULT {
            buttons::restore_default(dev, id)
        } else {
            buttons::set_button(dev, id, t, data)
        };
        let ghost before = out@;
        out.push((id, res));
        proof {
            let ln = dev.log();
            lemma_log_chain(l0, li, ln);
            let d0 = added(l0, li);
            let d1 = added(l0, ln);
            let cuts1 = cuts.push(d1.len() as int);
            assert(d1.subrange(d0.len() as int, d1.len() as int) =~= added(li, ln));
            assert forall|k: int| 0 <= k < i + 1 implies #[trigger] restored_at(d1, targets@, out@, cuts1, k) by {
                if k < i {
                    assert(restored_at(d0, targets@, before, cuts, k));
                    assert(d1.subrange(cuts[k], cuts[k + 1]) =~= d0.subrange(cuts[k], cuts[k + 1]));
                    assert(out@[k] == before[k]);
                    assert(cuts1[k] == cuts[k] && cuts1[k + 1] == cuts[k + 1]);
                } else {
                    assert(cuts1[k] == d0.len() && cuts1[k + 1] == d1.len());
                    assert(out@[k].1 == res);
                }
            }
            cuts = cuts1;
        }
        i = i + 1;
    }
    assert(restores_cut(added(l0, dev.log()), targets@, out@, cuts));
    out
}

} // verus!
