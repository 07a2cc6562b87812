//! The stack of pinned hover readouts and the hotkeys that edit it.
use vstd::prelude::*;

verus! {

/// The pins after one frame's hotkeys: the pin key pushes `new_pin`, then
/// the unpin key drops the newest pin, then the clear key drops them all.
pub open spec fn pins_after<T>(pins: Seq<T>, new_pin: Option<T>, unpin: bool, clear: bool) -> Seq<T> {
    let pushed = match new_pin {
        Some(p) => pins.push(p),
        None => pins,
    };
    let popped = if unpin && pushed.len() > 0 {
        pushed.drop_last()
    } else {
        pushed
    };
    if clear {
        Seq::empty()
    } else {
        popped
    }
}

/// Applies one frame's pin hotkeys while the pointer is over the plot.
///
/// `new_pin` is the pin the pin key asks for: `None` where the key was not
/// pressed, nothing was hit, or the pointer position is unknown. Returns
/// whether the pins are to be stored again.
pub fn apply_pin_keys<T>(pins: &mut Vec<T>, new_pin: Option<T>, unpin: bool, clear: bool) -> (changed:
    bool)
    ensures
        final(pins)@ == pins_after(old(pins)@, new_pin, unpin, clear),
        changed == (new_pin.is_some() || unpin || clear),
{
    let mut changed = false;
    match new_pin {
        Some(p) => {
            pins.push(p);
            changed = true;
        },
        None => {},
    }
    if unpin {
        let _ = pins.pop();
        changed = true;
    }
    if clear {
        pins.clear();
        changed = true;
    }
    changed
}

} // verus!
