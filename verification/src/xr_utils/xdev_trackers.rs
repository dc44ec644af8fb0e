//! Trackers exposed by Monado's XDev space extension: which devices get a
//! tracker, and when the trackers are rebuilt.

use vstd::prelude::*;
use vstd::std_specs::iter::IteratorSpec;
use vstd::string::{axiom_spec_iter, next_postcondition};

verus! {

/// Marks the entity of a tracker that an XDev device stands for.
#[derive(Clone, Copy, Debug)]
pub struct XDevTracker;

/// Adds trackers for the XDev devices that the runtime exposes.
pub struct MonadoXDevSpacesPlugin;

/// Whether the plugin sets up its systems: there is an instance with a
/// system, and the runtime said that the system supports XDev spaces.
pub fn xdev_spaces_enabled(has_instance_and_system: bool, supported: Result<bool, i32>) -> (r: bool)
    ensures
        r == (has_instance_and_system && supported == Ok::<bool, i32>(true)),
{
    if !has_instance_and_system {
        return false;
    }
    match supported {
        Ok(v) => v,
        Err(_) => false,
    }
}

/// Whether `pattern` occurs in `text` as a contiguous run.
pub open spec fn occurs_in(pattern: Seq<char>, text: Seq<char>) -> bool {
    exists|i: int| 0 <= i <= text.len() - pattern.len() && #[trigger] text.subrange(i, i + pattern.len()) == pattern
}

/// Whether a device gets a tracker: it can have a space, and its name holds
/// "Tracker".
pub open spec fn is_tracker(can_create_space: bool, name: Seq<char>) -> bool {
    can_create_space && occurs_in("Tracker"@, name)
}

fn chars_of(s: &str) -> (r: Vec<char>)
    ensures
        r@ == s@,
{
    broadcast use axiom_spec_iter, next_postcondition;

    let mut it = s.chars();
    let mut out: Vec<char> = Vec::new();
    loop
        invariant
            out@ + it.remaining() == s@,
        decreases s@.len() - out@.len(),
    {
        match it.next() {
            Some(c) => {
                proof {
                    assert(out@.push(c) + it.remaining() =~= s@);
                }
                out.push(c);
            },
            None => {
                proof {
                    assert(out@ =~= s@);
                }
                return out;
            },
        }
    }
}

fn occurs_at(pattern: &Vec<char>, text: &Vec<char>, i: usize) -> (r: bool)
    requires
        i + pattern@.len() <= text@.len(),
    ensures
        r == (text@.subrange(i as int, i + pattern@.len()) == pattern@),
{
    let mut j: usize = 0;
    while j < pattern.len()
        invariant
            i + pattern@.len() <= text.len(),
            text.len() == text@.len(),
            j <= pattern@.len(),
            forall|k: int| 0 <= k < j ==> text@[i + k] == pattern@[k],
        decreases pattern@.len() - j,
    {
        if text[i + j] != pattern[j] {
            proof {
                assert(text@.subrange(i as int, i + pattern@.len())[j as int] != pattern@[j as int]);
            }
            return false;
        }
        j = j + 1;
    }
    proof {
        assert(text@.subrange(i as int, i + pattern@.len()) =~= pattern@);
    }
    true
}

fn contains_chars(pattern: &Vec<char>, text: &Vec<char>) -> (r: bool)
    ensures
        r == occurs_in(pattern@, text@),
{
    if pattern.len() > text.len() {
        return false;
    }
    let last: usize = text.len() - pattern.len();
    let mut i: usize = 0;
    while i < last
        invariant
            i <= last,
            last + pattern@.len() == text@.len(),
            forall|k: int| 0 <= k < i ==> #[trigger] text@.subrange(k, k + pattern@.len()) != pattern@,
        decreases last - i,
    {
        if occurs_at(pattern, text, i) {
            return true;
        }
        i = i + 1;
    }
    occurs_at(pattern, text, last)
}

/// Whether a device gets a tracker; see [`is_tracker`].
pub fn is_xdev_tracker(can_create_space: bool, name: &str) -> (r: bool)
    ensures
        r == is_tracker(can_create_space, name@),
{
    if !can_create_space {
        return false;
    }
    let pattern = chars_of("Tracker");
    let text = chars_of(name);
    contains_chars(&pattern, &text)
}

/// What to do when the device list is polled.
#[derive(Clone, Copy, Debug, PartialEq, Eq, Structural)]
pub enum XDevListUpdate {
    /// The list is unchanged: keep the trackers.
    Keep,
    /// The list changed: record `generation`, despawn the trackers and create
    /// them again.
    Rebuild { generation: u64 },
    /// The generation could not be read: report it and keep the trackers.
    ReadFailed,
}

/// Decides what to do with the trackers from the generation last recorded and
/// what reading the current one returned.
pub fn update_xdev_list(recorded: u64, current: Result<u64, i32>) -> (r: XDevListUpdate)
    ensures
        match current {
            Ok(g) => if g != recorded {
                r == (XDevListUpdate::Rebuild { generation: g })
            } else {
                r == XDevListUpdate::Keep
            },
            Err(_) => r == XDevListUpdate::ReadFailed,
        },
{
    match current {
        Ok(g) => {
            if g != recorded {
                XDevListUpdate::Rebuild { generation: g }
            } else {
                XDevListUpdate::Keep
            }
        },
        Err(_) => XDevListUpdate::ReadFailed,
    }
}

} // verus!
