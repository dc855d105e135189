//! Which key the push-to-talk shortcut watches, and how a modifier-change
//! event of that key reads as press or release.

use vstd::prelude::*;

verus! {

/// Mask of modifier-change events in the event monitor.
pub const FLAGS_CHANGED_EVENT_MASK: u64 = 4096;

/// Key code and modifier mask bound to a shortcut name, if it is known.
pub open spec fn key_binding(shortcut: Seq<char>) -> Option<(u16, u64)> {
    if shortcut == "right_option_key"@ {
        Some((61, 0x80000))
    } else if shortcut == "right_command_key"@ {
        Some((54, 0x100000))
    } else {
        None
    }
}

/// Looks up the key code and modifier mask of a shortcut name.
pub fn get_key_code_and_mask(shortcut: &str) -> (r: Option<(u16, u64)>)
    ensures
        r == key_binding(shortcut@),
{
    let name = String::from_str(shortcut);
    if name == String::from_str("right_option_key") {
        Some((61, 0x80000))
    } else if name == String::from_str("right_command_key") {
        Some((54, 0x100000))
    } else {
        None
    }
}

/// Reads a modifier-change event: `None` when it concerns another key, else
/// whether the watched key is now down.
pub fn key_event_state(event_key_code: u16, modifier_flags: u64, key_code: u16, key_mask: u64) -> (r:
    Option<bool>)
    ensures
        event_key_code != key_code ==> r is None,
        event_key_code == key_code ==> r == Some(modifier_flags & key_mask != 0),
{
    if event_key_code == key_code {
        Some(modifier_flags & key_mask != 0)
    } else {
        None
    }
}

} // verus!
