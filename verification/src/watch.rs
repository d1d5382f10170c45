//! Hotplug decisions. The program listens on a `NETLINK_KOBJECT_UEVENT`
//! socket (the source udev itself reads) and asks the worker for a refresh
//! when a Keychron HID node comes or goes; this module decides which kernel
//! events count and coalesces the burst one plug emits. The socket and the
//! sleeping belong to the caller.

use vstd::prelude::*;

use crate::worker::Cmd;

verus! {

/// VID 0x3434 as it appears in uevent payloads (`HID_ID` / `MODALIAS`):
/// the ASCII bytes of "00003434".
pub const KEYCHRON_VID: [u8; 8] = [0x30, 0x30, 0x30, 0x30, 0x33, 0x34, 0x33, 0x34];

/// Coalesce the burst of events one plug emits (nanoseconds: 250 ms).
pub const DEBOUNCE_NS: u128 = 250_000_000;

/// Let the just-added node settle before the first read (milliseconds).
pub const SETTLE_MS: u64 = 200;

/// The tag as a sequence, for contracts.
pub open spec fn vid_tag() -> Seq<u8> {
    seq![0x30u8, 0x30u8, 0x30u8, 0x30u8, 0x33u8, 0x34u8, 0x33u8, 0x34u8]
}

/// Some 8-byte window of `msg` is the Keychron VID tag.
pub open spec fn mentions_keychron_spec(msg: Seq<u8>) -> bool {
    exists|i: int| 0 <= i && i + 8 <= msg.len() && #[trigger] msg.subrange(i, i + 8) == vid_tag()
}

fn tag_at(msg: &[u8], i: usize) -> (r: bool)
    requires
        i + 8 <= msg@.len(),
    ensures
        r == (msg@.subrange(i as int, i + 8) == vid_tag()),
{
    let tag = KEYCHRON_VID;
    assert(tag@ == vid_tag());
    let n = msg.len();
    let mut k: usize = 0;
    while k < 8
        invariant
            n == msg@.len(),
            i + 8 <= msg@.len(),
            tag@ == vid_tag(),
            k <= 8,
            forall|j: int| 0 <= j < k ==> msg@[i + j] == vid_tag()[j],
        decreases 8 - k,
    {
        if msg[i + k] != tag[k] {
            assert(msg@.subrange(i as int, i + 8)[k as int] != vid_tag()[k as int]);
            return false;
        }
        k = k + 1;
    }
    assert(msg@.subrange(i as int, i + 8) =~= vid_tag());
    true
}

/// Whether a uevent payload names a Keychron device.
pub fn mentions_keychron(msg: &[u8]) -> (r: bool)
    ensures
        r == mentions_keychron_spec(msg@),
{
    if msg.len() < 8 {
        return false;
    }
    let n = msg.len();
    let mut i: usize = 0;
    while i <= n - 8
        invariant
            n == msg@.len(),
            n >= 8,
            i <= n - 7,
            forall|j: int| 0 <= j < i ==> #[trigger] msg@.subrange(j, j + 8) != vid_tag(),
        decreases msg@.len() - i,
    {
        if tag_at(msg, i) {
            return true;
        }
        i = i + 1;
    }
    assert forall|j: int| 0 <= j && j + 8 <= msg@.len() implies #[trigger] msg@.subrange(
        j,
        j + 8,
    ) != vid_tag() by {
        assert(j < i);
    }
    false
}

/// A Keychron event refreshes unless another did so within the debounce
/// window; `since_last_ns` is the time since the last refresh, if any.
pub fn refresh_due(keychron: bool, since_last_ns: Option<u128>) -> (r: bool)
    ensures
        r == (keychron && match since_last_ns {
            None => true,
            Some(t) => t > DEBOUNCE_NS,
        }),
{
    keychron && match since_last_ns {
        None => true,
        Some(t) => t > DEBOUNCE_NS,
    }
}

/// What a due refresh asks of the worker: the snapshot, then the buttons.
pub fn hotplug_commands() -> (cmds: Vec<Cmd>)
    ensures
        cmds@ == seq![Cmd::ReadAll, Cmd::ReadButtons],
{
    let mut v: Vec<Cmd> = Vec::new();
    v.push(Cmd::ReadAll);
    v.push(Cmd::ReadButtons);
    assert(v@ =~= seq![Cmd::ReadAll, Cmd::ReadButtons]);
    v
}

} // verus!
