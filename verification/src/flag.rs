//! The egress flag: one persisted switch that sends new connections through
//! the Tor relay (on) or straight to their target (off).
//!
//! The flag lives in a small text artifact that the dispatcher polls before
//! each connection and that the control panel rewrites. Nothing synchronises
//! the two: whatever the artifact held at the moment of the read decides.

use crate::whitespace::{blank_from, skip_white, skip_white_space, white_space_len};
use vstd::prelude::*;

verus! {

/// The artifact that holds the flag, in the working directory of the
/// process that reads or writes it.
pub const FLAG_FILE: &'static str = "gold-dust-tor.flag";

/// The word that switches Tor egress off.
pub open spec fn off_word() -> Seq<u8> {
    seq![0x6fu8, 0x66u8, 0x66u8]
}

/// Whether `content`, with the white space at both ends taken off, is the
/// word `off`.
pub open spec fn says_off(content: Seq<u8>) -> bool {
    let start = skip_white_space(content, 0);
    &&& start + 3 <= content.len()
    &&& content.subrange(start, start + 3) == off_word()
    &&& blank_from(content, start + 3)
}

/// The state of the switch, given what the artifact holds (`None` where it
/// could not be read). Only the word `off` switches Tor egress off: a missing
/// artifact and any other content leave it on.
pub open spec fn egress_on(content: Option<Seq<u8>>) -> bool {
    match content {
        Some(c) => !says_off(c),
        None => true,
    }
}

/// What the artifact holds after the switch was set to `on`.
pub open spec fn flag_bytes(on: bool) -> Seq<u8> {
    if on {
        seq![0x6fu8, 0x6eu8, 0x0au8]
    } else {
        seq![0x6fu8, 0x66u8, 0x66u8, 0x0au8]
    }
}

/// Decides from the artifact's content whether a new connection leaves
/// through Tor.
pub fn should_use_tor(content: Option<&[u8]>) -> (on: bool)
    ensures
        on == egress_on(
            match content {
                Some(c) => Some(c@),
                None => None,
            },
        ),
{
    match content {
        None => true,
        Some(c) => {
            let start: usize = skip_white(c, 0);
            if c.len() - start < 3 {
                return true;
            }
            if c[start] != 0x6f || c[start + 1] != 0x66 || c[start + 2] != 0x66 {
                assert(c@.subrange(start as int, start + 3)[0] == c@[start as int]);
                assert(c@.subrange(start as int, start + 3)[1] == c@[start + 1]);
                assert(c@.subrange(start as int, start + 3)[2] == c@[start + 2]);
                return true;
            }
            assert(c@.subrange(start as int, start + 3) =~= off_word());
            let end: usize = skip_white(c, start + 3);
            end != c.len()
        },
    }
}

/// The content to store for a state of the switch: `on` or `off`, each on a
/// line of its own.
pub fn flag_text(on: bool) -> (text: Vec<u8>)
    ensures
        text@ == flag_bytes(on),
{
    let mut text: Vec<u8> = Vec::new();
    text.push(0x6f);
    if on {
        text.push(0x6e);
    } else {
        text.push(0x66);
        text.push(0x66);
    }
    text.push(0x0a);
    assert(text@ =~= flag_bytes(on));
    text
}

/// What was stored is what is read back: the content written for a state of
/// the switch decides for that state.
pub proof fn lemma_flag_round_trip(on: bool)
    ensures
        egress_on(Some(flag_bytes(on))) == on,
{
    let c = flag_bytes(on);
    assert(white_space_len(c, 0) == 0);
    assert(skip_white_space(c, 0) == 0);
    if on {
        assert(c.subrange(0, 3)[1] == 0x6eu8);
    } else {
        assert(c.subrange(0, 3) =~= off_word());
        assert(white_space_len(c, 3) == 1);
        assert(white_space_len(c, 4) == 0);
        assert(skip_white_space(c, 4) == 4);
        assert(skip_white_space(c, 3) == 4);
    }
}

} // verus!
