//! The emulator control protocol: the request messages sent to the running
//! emulator over a best-effort datagram transport, and the parser for its
//! status replies.
//!
//! Requests are short newline-free ASCII strings. Sending is
//! fire-and-forget; a reply, if any, arrives within a bounded timeout or
//! is treated as absent. The transport itself lives outside this crate;
//! screens put requests on the command bus as [`ControlRequest`] values
//! and the surrounding process transmits them.

use vstd::prelude::*;
use vstd::string::{StringExecFns, StringSliceAdditionalSpecFns};

use crate::bytes::{ascii_chars, bytes_to_string, find_byte, find_byte_from};
use crate::numtext::{i64_to_string, spec_digits, spec_int_text, u64_to_string};

verus! {

/// A request to the running emulator.
#[derive(Debug, Clone, Copy, PartialEq, Eq, Structural)]
pub enum RetroArchCommand {
    Pause,
    Unpause,
    SaveStateSlot(i8),
    LoadStateSlot(i8),
    SetStateSlot(i8),
    SetDiskSlot(u8),
    Reset,
    Quit,
    MenuToggle,
    GetInfo,
    GetStateSlot,
}

/// The message text of a request.
pub open spec fn spec_message(cmd: RetroArchCommand) -> Seq<char> {
    match cmd {
        RetroArchCommand::Pause => "PAUSE"@,
        RetroArchCommand::Unpause => "UNPAUSE"@,
        RetroArchCommand::SaveStateSlot(n) => "SAVE_STATE_SLOT "@ + spec_int_text(n as int),
        RetroArchCommand::LoadStateSlot(n) => "LOAD_STATE_SLOT "@ + spec_int_text(n as int),
        RetroArchCommand::SetStateSlot(n) => "SET_STATE_SLOT "@ + spec_int_text(n as int),
        RetroArchCommand::SetDiskSlot(n) => "SET_DISK_SLOT "@ + spec_digits(n as nat),
        RetroArchCommand::Reset => "RESET"@,
        RetroArchCommand::Quit => "QUIT"@,
        RetroArchCommand::MenuToggle => "MENU_TOGGLE"@,
        RetroArchCommand::GetInfo => "GET_INFO"@,
        RetroArchCommand::GetStateSlot => "GET_STATE_SLOT"@,
    }
}

impl RetroArchCommand {
    /// Renders the request as the message sent on the wire.
    pub fn message(&self) -> (r: String)
        ensures
            r@ == spec_message(*self),
    {
        proof {
            reveal_strlit("PAUSE");
            reveal_strlit("UNPAUSE");
            reveal_strlit("SAVE_STATE_SLOT ");
            reveal_strlit("LOAD_STATE_SLOT ");
            reveal_strlit("SET_STATE_SLOT ");
            reveal_strlit("SET_DISK_SLOT ");
            reveal_strlit("RESET");
            reveal_strlit("QUIT");
            reveal_strlit("MENU_TOGGLE");
            reveal_strlit("GET_INFO");
            reveal_strlit("GET_STATE_SLOT");
        }
        match self {
            RetroArchCommand::Pause => "PAUSE".to_owned(),
            RetroArchCommand::Unpause => "UNPAUSE".to_owned(),
            RetroArchCommand::SaveStateSlot(n) => {
                let mut s = "SAVE_STATE_SLOT ".to_owned();
                let d = i64_to_string(*n as i64);
                s.append(d.as_str());
                s
            },
            RetroArchCommand::LoadStateSlot(n) => {
                let mut s = "LOAD_STATE_SLOT ".to_owned();
                let d = i64_to_string(*n as i64);
                s.append(d.as_str());
                s
            },
            RetroArchCommand::SetStateSlot(n) => {
                let mut s = "SET_STATE_SLOT ".to_owned();
                let d = i64_to_string(*n as i64);
                s.append(d.as_str());
                s
            },
            RetroArchCommand::SetDiskSlot(n) => {
                let mut s = "SET_DISK_SLOT ".to_owned();
                let d = u64_to_string(*n as u64);
                s.append(d.as_str());
                s
            },
            RetroArchCommand::Reset => "RESET".to_owned(),
            RetroArchCommand::Quit => "QUIT".to_owned(),
            RetroArchCommand::MenuToggle => "MENU_TOGGLE".to_owned(),
            RetroArchCommand::GetInfo => "GET_INFO".to_owned(),
            RetroArchCommand::GetStateSlot => "GET_STATE_SLOT".to_owned(),
        }
    }
}

/// One queued request for the control transport.
#[derive(Debug, Clone, Copy, PartialEq, Eq, Structural)]
pub enum ControlRequest {
    /// Send the message of the command, fire-and-forget.
    Send(RetroArchCommand),
    /// Kill the emulator process directly; used for emulators that have no
    /// control channel.
    ForceKillEmulator,
}

/// A parsed status reply.
#[derive(Debug, PartialEq, Eq)]
pub struct RetroArchStatus {
    /// The reported state, e.g. the text between the reply tag and the
    /// first comma.
    pub state: String,
    /// The loaded content, if the reply named any.
    pub content: Option<String>,
}

/// The reply tag of a status reply.
pub open spec fn info_tag() -> Seq<u8> {
    seq![71u8, 69u8, 84u8, 95u8, 73u8, 78u8, 70u8, 79u8]
}

/// What parsing a status reply yields over the reply's bytes: the reply
/// must open with the tag and a space; the rest splits at the first comma
/// into the state and, if the comma is there, the content.
pub open spec fn spec_parse_info(bs: Seq<u8>) -> Option<(Seq<u8>, Option<Seq<u8>>)> {
    let sp = find_byte(bs, 32);
    if sp == bs.len() {
        None
    } else if bs.take(sp) != info_tag() {
        None
    } else {
        let rest = bs.skip(sp + 1);
        let k = find_byte(rest, 44);
        if k == rest.len() {
            Some((rest, None))
        } else {
            Some((rest.take(k), Some(rest.skip(k + 1))))
        }
    }
}

/// The byte of the reply tag at one index.
fn tag_byte(i: usize) -> (r: u8)
    requires
        i < 8,
    ensures
        r == info_tag()[i as int],
{
    if i == 0 {
        71
    } else if i == 1 {
        69
    } else if i == 2 {
        84
    } else if i == 3 {
        95
    } else if i == 4 {
        73
    } else if i == 5 {
        78
    } else if i == 6 {
        70
    } else {
        79
    }
}

/// Parses a status reply. A reply in an unknown format yields nothing, and
/// the caller ignores it: the peer may not even be running.
pub fn parse_retroarch_info(response: &str) -> (r: Option<RetroArchStatus>)
    ensures
        match spec_parse_info(response.spec_bytes()) {
            Some((state, content)) => r matches Some(st) && st.state@ == ascii_chars(state)
                && (match content {
                Some(c) => st.content matches Some(cs) && cs@ == ascii_chars(c),
                None => st.content is None,
            }),
            None => r is None,
        },
{
    let bs = response.as_bytes();
    let n = bs.len();
    assert(bs@.skip(0) =~= bs@);
    let sp = find_byte_from(bs, 32, 0);
    if sp == n {
        return None;
    }
    // The reply must open with the tag.
    if sp != 8 {
        assert(bs@.take(sp as int).len() != info_tag().len());
        return None;
    }
    let mut t: usize = 0;
    while t < 8
        invariant
            0 <= t <= 8,
            8 < bs@.len(),
            sp == 8,
            sp == find_byte(bs@, 32),
            bs@ == response.spec_bytes(),
            n == bs@.len(),
            forall|j: int| 0 <= j < t ==> bs@[j] == info_tag()[j],
        decreases 8 - t,
    {
        if bs[t] != tag_byte(t) {
            assert(bs@.take(8)[t as int] != info_tag()[t as int]);
            return None;
        }
        t += 1;
    }
    assert(bs@.take(8) =~= info_tag());
    let rest_start = sp + 1;
    let k = find_byte_from(bs, 44, rest_start);
    let ghost rest = bs@.skip(rest_start as int);
    if k == n {
        assert(find_byte(rest, 44) == rest.len());
        let state = bytes_to_string(bs, rest_start, n);
        assert(bs@.subrange(rest_start as int, n as int) =~= rest);
        Some(RetroArchStatus { state, content: None })
    } else {
        let state = bytes_to_string(bs, rest_start, k);
        let content = bytes_to_string(bs, k + 1, n);
        assert(bs@.subrange(rest_start as int, k as int) =~= rest.take(
            find_byte(rest, 44),
        ));
        assert(bs@.subrange(k + 1, n as int) =~= rest.skip(find_byte(rest, 44) + 1));
        Some(RetroArchStatus { state, content: Some(content) })
    }
}

} // verus!
