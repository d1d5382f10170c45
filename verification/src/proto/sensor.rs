//! Sensor params (cmd 0x42). Encoding: each field 0 = "leave unchanged",
//! on = 1, off = 2 (Launcher `x||2`); scroll_dir/fps20k are `bit+1`.
//! Unspecified fields are resolved from the current block so a single-field
//! change preserves the rest, then the block is read back to confirm.

use vstd::prelude::*;

use crate::hid::{
    added, extends, lemma_log_one_more, lemma_log_same, lemma_log_then, refused, write_step,
    ExchangeLog, Hid, HidError,
};
use crate::proto::block::{block_step, read_all, Sensor, Settings};
use crate::proto::rejection;
use crate::text::string_of;

verus! {

pub const CMD_SENSOR: u8 = 0x42;

/// Optional sensor fields; `None` = keep the device's current value.
#[derive(Clone, Copy, Debug)]
pub struct SensorFields {
    pub lod: Option<u8>,
    pub scroll_dir: Option<u8>,
    pub motion: Option<u8>,
    pub wave: Option<u8>,
    pub line: Option<u8>,
    pub fps20k: Option<u8>,
}

impl Default for SensorFields {
    fn default() -> (f: Self)
        ensures
            f.lod is None && f.scroll_dir is None && f.motion is None && f.wave is None
                && f.line is None && f.fps20k is None,
    {
        SensorFields {
            lod: None,
            scroll_dir: None,
            motion: None,
            wave: None,
            line: None,
            fps20k: None,
        }
    }
}

/// On/off field encoding: 0 ("off") is sent as 2.
pub open spec fn bit_or2_spec(v: u8) -> u8 {
    if v != 0 {
        v
    } else {
        2
    }
}

pub fn bit_or2(v: u8) -> (r: u8)
    ensures
        r == bit_or2_spec(v),
{
    if v != 0 {
        v
    } else {
        2
    }
}

/// 10-byte SET payload for fully specified sensor fields.
pub open spec fn sensor_payload_spec(
    lod: u8,
    wave: u8,
    line: u8,
    motion: u8,
    scroll_dir: u8,
    fps20k: u8,
) -> Seq<u8> {
    seq![
        lod,
        bit_or2_spec(wave),
        bit_or2_spec(line),
        bit_or2_spec(motion),
        0u8,
        ((scroll_dir & 1) + 1) as u8,
        0u8,
        ((fps20k & 1) + 1) as u8,
        0u8,
        0u8,
    ]
}

/// 10-byte SET payload for the resolved (fully-specified) sensor fields.
pub fn sensor_payload(lod: u8, wave: u8, line: u8, motion: u8, scroll_dir: u8, fps20k: u8) -> (p:
    [u8; 10])
    ensures
        p@ == sensor_payload_spec(lod, wave, line, motion, scroll_dir, fps20k),
{
    let s1 = scroll_dir & 1;
    let f1 = fps20k & 1;
    assert(s1 <= 1 && f1 <= 1) by (bit_vector)
        requires
            s1 == scroll_dir & 1,
            f1 == fps20k & 1,
    ;
    let p = [lod, bit_or2(wave), bit_or2(line), bit_or2(motion), 0, s1 + 1, 0, f1 + 1, 0, 0];
    assert(p@ =~= sensor_payload_spec(lod, wave, line, motion, scroll_dir, fps20k));
    p
}

/// The value a field resolves to: the requested one, else the current one.
pub open spec fn resolve(f: Option<u8>, current: u8) -> u8 {
    match f {
        Some(v) => v,
        None => current,
    }
}

/// Whether the read-back sensor state matches every resolved field.
pub open spec fn sensor_matches(s: Sensor, cur: Sensor, f: SensorFields) -> bool {
    &&& s.lod == resolve(f.lod, cur.lod)
    &&& s.wave == resolve(f.wave, cur.wave)
    &&& s.line == resolve(f.line, cur.line)
    &&& s.motion_sync == resolve(f.motion, cur.motion_sync)
    &&& s.scroll_dir == resolve(f.scroll_dir, cur.scroll_dir)
    &&& s.fps20k == resolve(f.fps20k, cur.fps20k)
}

/// The sensor payload for `f` with unrequested fields taken from `cur`.
pub open spec fn resolved_payload(f: SensorFields, cur: Sensor) -> Seq<u8> {
    sensor_payload_spec(
        resolve(f.lod, cur.lod),
        resolve(f.wave, cur.wave),
        resolve(f.line, cur.line),
        resolve(f.motion, cur.motion_sync),
        resolve(f.scroll_dir, cur.scroll_dir),
        resolve(f.fps20k, cur.fps20k),
    )
}

/// The read-back check of a sensor write: `Ok` when `after` matches every
/// resolved field, else `"sensor set unconfirmed on read-back"`.
pub open spec fn sensor_confirmed(
    res: Result<(), HidError>,
    after: Sensor,
    cur: Sensor,
    f: SensorFields,
) -> bool {
    if sensor_matches(after, cur, f) {
        res is Ok
    } else {
        refused(res, "sensor set unconfirmed on read-back"@)
    }
}

/// The exchanges of a sensor write: a block read giving the current sensor
/// state; the write `(0x42, resolved payload)`; once acked, a second block
/// read that must match every resolved field.
pub open spec fn set_sensor_exchanges(d: ExchangeLog, f: SensorFields, res: Result<(), HidError>) -> bool {
    block_step(
        d,
        res,
        |cur: Settings, rest: ExchangeLog|
            write_step(
                rest,
                CMD_SENSOR,
                resolved_payload(f, cur.sensor),
                "sensor set"@,
                res,
                |rest2: ExchangeLog|
                    block_step(
                        rest2,
                        res,
                        |after: Settings, tail: ExchangeLog|
                            tail.len() == 0 && sensor_confirmed(res, after.sensor, cur.sensor, f),
                    ),
            ),
    )
}

/// Write the sensor fields (unspecified ones keep their current value), then
/// read back and confirm every field.
pub fn set_sensor<H: Hid>(dev: &mut H, f: SensorFields) -> (res: Result<(), HidError>)
    ensures
        extends(old(dev).log(), final(dev).log()),
        set_sensor_exchanges(added(old(dev).log(), final(dev).log()), f, res),
{
    let ghost l0 = dev.log();
    let first = read_all(dev);
    let ghost l1 = dev.log();
    proof {
        lemma_log_one_more(l0, l1);
        lemma_log_same(l1);
        lemma_log_then(l0, l1.last(), l1);
    }
    let cur = match first {
        Ok(c) => c,
        Err(e) => return Err(e),
    };
    let s = &cur.sensor;
    let lod = f.lod.unwrap_or(s.lod);
    let wave = f.wave.unwrap_or(s.wave);
    let line = f.line.unwrap_or(s.line);
    let motion = f.motion.unwrap_or(s.motion_sync);
    let scroll_dir = f.scroll_dir.unwrap_or(s.scroll_dir);
    let fps20k = f.fps20k.unwrap_or(s.fps20k);
    let payload = sensor_payload(lod, wave, line, motion, scroll_dir, fps20k);
    let sent = dev.set(CMD_SENSOR, &payload);
    let ghost l2 = dev.log();
    proof {
        lemma_log_same(l2);
        lemma_log_then(l1, l2.last(), l2);
        lemma_log_then(l0, l1.last(), l2);
    }
    let (ok, resp) = match sent {
        Ok(p) => p,
        Err(e) => return Err(e),
    };
    if !ok {
        return rejection("sensor set", resp.as_slice());
    }
    let second = read_all(dev);
    let ghost l3 = dev.log();
    proof {
        lemma_log_then(l1, l2.last(), l3);
        lemma_log_then(l0, l1.last(), l3);
    }
    let after_block = match second {
        Ok(a) => a,
        Err(e) => return Err(e),
    };
    confirm_sensor(&after_block.sensor, &cur.sensor, f)
}

/// The outcome of a sensor write's read-back: `Ok` when every field of the
/// block read after the write `after` equals the requested field, or the
/// field read before it `cur` where none was requested.
pub fn confirm_sensor(after: &Sensor, cur: &Sensor, f: SensorFields) -> (r: Result<(), HidError>)
    ensures
        sensor_matches(*after, *cur, f) ==> r is Ok,
        !sensor_matches(*after, *cur, f) ==> (r matches Err(HidError::BadReply(m)) && m@
            == "sensor set unconfirmed on read-back"@),
{
    let lod = f.lod.unwrap_or(cur.lod);
    let wave = f.wave.unwrap_or(cur.wave);
    let line = f.line.unwrap_or(cur.line);
    let motion = f.motion.unwrap_or(cur.motion_sync);
    let scroll_dir = f.scroll_dir.unwrap_or(cur.scroll_dir);
    let fps20k = f.fps20k.unwrap_or(cur.fps20k);
    if after.lod != lod || after.wave != wave || after.line != line || after.motion_sync != motion
        || after.scroll_dir != scroll_dir || after.fps20k != fps20k {
        return Err(HidError::BadReply(string_of("sensor set unconfirmed on read-back")));
    }
    Ok(())
}

/// Angle-snapping payload (cmd 0x42, alt fields): byte 8 is the 2 "edit
/// angle" marker; byte 9 is the angle, 0 when snapping is off.
pub open spec fn angle_payload_spec(angle: u8, enable: bool) -> Seq<u8> {
    seq![0u8, 0u8, 0u8, 0u8, 0u8, 0u8, 0u8, 0u8, 2u8, if enable { angle } else { 0u8 }]
}

/// Angle-snapping payload (cmd 0x42, alt fields).
pub fn angle_payload(angle: u8, enable: bool) -> (p: [u8; 10])
    ensures
        p@ == angle_payload_spec(angle, enable),
{
    let mut p = [0u8; 10];
    p[8] = 2;
    p[9] = if enable {
        angle
    } else {
        0
    };
    assert(p@ =~= angle_payload_spec(angle, enable));
    p
}

/// The exchanges of an angle write: one write of `(0x42, angle payload)`;
/// once acked, one block read whose angle is the result.
pub open spec fn set_angle_outcome(d: ExchangeLog, angle: u8, enable: bool, res: Result<i16, HidError>) -> bool {
    write_step(
        d,
        CMD_SENSOR,
        angle_payload_spec(angle, enable),
        "angle set"@,
        res,
        |rest: ExchangeLog|
            block_step(
                rest,
                res,
                |s: Settings, tail: ExchangeLog|
                    tail.len() == 0 && res == Ok::<i16, HidError>(s.sensor.angle),
            ),
    )
}

/// Set angle snapping. Returns the read-back angle: one write of
/// `(0x42, angle payload)`; once acked, one block read whose angle is the
/// result.
pub fn set_angle<H: Hid>(dev: &mut H, angle: u8, enable: bool) -> (res: Result<i16, HidError>)
    ensures
        extends(old(dev).log(), final(dev).log()),
        set_angle_outcome(added(old(dev).log(), final(dev).log()), angle, enable, res),
{
    let ghost l0 = dev.log();
    let payload = angle_payload(angle, enable);
    let sent = dev.set(CMD_SENSOR, &payload);
    let ghost l1 = dev.log();
    proof {
        lemma_log_same(l1);
        lemma_log_then(l0, l1.last(), l1);
    }
    let (ok, resp) = match sent {
        Ok(p) => p,
        Err(e) => return Err(e),
    };
    if !ok {
        return rejection("angle set", resp.as_slice());
    }
    let got = read_all(dev);
    proof {
        lemma_log_then(l0, l1.last(), dev.log());
    }
    match got {
        Ok(s) => Ok(s.sensor.angle),
        Err(e) => Err(e),
    }
}

/// The Launcher's 0x42 sensor frame layout: byte 0 is the lift-off
/// distance, byte 1 ripple control (wave), byte 2 angle line, byte 3 motion
/// sync, each on/off field sent as itself when set and as 2 ("off") when 0;
/// byte 5 is the scroll direction and byte 7 the sampling mode, each as its
/// low bit plus 1; bytes 4, 6, 8 and 9 are 0.
pub proof fn sensor_frame_layout(lod: u8, wave: u8, line: u8, motion: u8, scroll_dir: u8, fps20k: u8)
    ensures
        ({
            let p = sensor_payload_spec(lod, wave, line, motion, scroll_dir, fps20k);
            &&& p.len() == 10
            &&& p[0] == lod
            &&& p[1] == (if wave == 0 { 2 } else { wave })
            &&& p[2] == (if line == 0 { 2 } else { line })
            &&& p[3] == (if motion == 0 { 2 } else { motion })
            &&& p[4] == 0
            &&& p[5] == 1 + scroll_dir % 2
            &&& p[6] == 0
            &&& p[7] == 1 + fps20k % 2
            &&& p[8] == 0
            &&& p[9] == 0
        }),
{
    assert(scroll_dir & 1 == scroll_dir % 2) by (bit_vector);
    assert(fps20k & 1 == fps20k % 2) by (bit_vector);
}

/// Each on/off field of the sensor frame lives in its own byte: changing
/// ripple control alone changes byte 1 only, and changing motion sync alone
/// changes byte 3 only; for a field that is 0 or 1, the byte is 1 exactly
/// when the field is on.
pub proof fn sensor_fields_have_their_own_bytes(
    lod: u8,
    wave: u8,
    line: u8,
    motion: u8,
    scroll_dir: u8,
    fps20k: u8,
    other: u8,
)
    ensures
        forall|j: int|
            0 <= j < 10 && j != 1 ==> #[trigger] sensor_payload_spec(
                lod,
                other,
                line,
                motion,
                scroll_dir,
                fps20k,
            )[j] == sensor_payload_spec(lod, wave, line, motion, scroll_dir, fps20k)[j],
        forall|j: int|
            0 <= j < 10 && j != 3 ==> #[trigger] sensor_payload_spec(
                lod,
                wave,
                line,
                other,
                scroll_dir,
                fps20k,
            )[j] == sensor_payload_spec(lod, wave, line, motion, scroll_dir, fps20k)[j],
        wave <= 1 ==> (sensor_payload_spec(lod, wave, line, motion, scroll_dir, fps20k)[1] == 1
            <==> wave == 1),
        motion <= 1 ==> (sensor_payload_spec(lod, wave, line, motion, scroll_dir, fps20k)[3] == 1
            <==> motion == 1),
{
    sensor_frame_layout(lod, wave, line, motion, scroll_dir, fps20k);
    sensor_frame_layout(lod, other, line, motion, scroll_dir, fps20k);
    sensor_frame_layout(lod, wave, line, other, scroll_dir, fps20k);
}

} // verus!
