//! Protocol layer for the 8k_nordic family: settings block, DPI, polling,
//! sensor, system, profiles, buttons, macros and firmware info.

pub mod block;
pub mod buttons;
pub mod dpi;
pub mod info;
pub mod macros;
pub mod polling;
pub mod profile;
pub mod sensor;
pub mod system;

use vstd::prelude::*;

use crate::hid::enumerate::USAGE_PAGE_CONFIG;
use crate::hid::{refused, rejected, HidError};
use crate::text::{append_hex_list, append_radix, dec, string_of};

verus! {

/// Protocol variant of a connected device.
#[derive(Clone, Copy, PartialEq, Eq, Debug, Structural)]
pub enum Variant {
    EightKNordic,
    Unsupported,
}

impl Variant {
    /// Variant name as the Launcher spells it.
    pub fn label(self) -> (s: &'static str)
        ensures
            self == Variant::EightKNordic ==> s@ == "8k_nordic"@,
            self == Variant::Unsupported ==> s@ == "unsupported"@,
    {
        match self {
            Variant::EightKNordic => "8k_nordic",
            Variant::Unsupported => "unsupported",
        }
    }
}

/// Runtime detection. The M6 / Ultra-Link 8K exposes config on usage 0xFFC1
/// and is the only hardware-verified variant; everything else is Unsupported.
pub fn detect(usage_page: u16) -> (v: Variant)
    ensures
        v == (if usage_page == USAGE_PAGE_CONFIG {
            Variant::EightKNordic
        } else {
            Variant::Unsupported
        }),
{
    if usage_page == USAGE_PAGE_CONFIG {
        Variant::EightKNordic
    } else {
        Variant::Unsupported
    }
}

/// The refusal of a write the device did not ack:
/// `"{what} rejected: {reply as a byte list}"`.
pub fn rejection<T>(what: &str, resp: &[u8]) -> (r: Result<T, HidError>)
    ensures
        rejected(r, what@, resp@),
{
    let mut m = string_of(what);
    m.append(" rejected: ");
    append_hex_list(&mut m, resp);
    Err(HidError::BadReply(m))
}

/// The outcome of a write's acknowledgement: `Ok` when the device acked,
/// else `"{what} rejected: {reply as a byte list}"`.
pub fn ack_result(what: &str, ok: bool, resp: &[u8]) -> (r: Result<(), HidError>)
    ensures
        ok ==> r is Ok,
        !ok ==> rejected(r, what@, resp@),
{
    if ok {
        Ok(())
    } else {
        rejection(what, resp)
    }
}

/// The read-back check of `read` against `wanted`: `Ok(read)` when they
/// agree, else `"{what} unconfirmed: wanted {wanted}, read {read}"`.
pub open spec fn confirmed(res: Result<u8, HidError>, what: Seq<char>, wanted: u8, read: u8) -> bool {
    if read == wanted {
        res == Ok::<u8, HidError>(read)
    } else {
        refused(
            res,
            what + " unconfirmed: wanted "@ + dec(wanted as nat) + ", read "@ + dec(read as nat),
        )
    }
}

/// The outcome of a read-back check: `Ok(read)` when the device reports
/// the value written, else `"{what} unconfirmed: wanted {wanted}, read {read}"`.
pub fn confirm_value(what: &str, wanted: u8, read: u8) -> (r: Result<u8, HidError>)
    ensures
        confirmed(r, what@, wanted, read),
{
    if read == wanted {
        Ok(read)
    } else {
        let mut m = string_of(what);
        m.append(" unconfirmed: wanted ");
        append_radix(&mut m, wanted as u64, 10);
        m.append(", read ");
        append_radix(&mut m, read as u64, 10);
        Err(HidError::BadReply(m))
    }
}

} // verus!
