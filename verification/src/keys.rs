//! The keys that the screens tell apart.

use vstd::prelude::*;

verus! {

/// One key press, as far as any screen cares which key it was. A key that no
/// screen handles itself arrives as `Other`.
#[derive(Clone, Copy, Debug, PartialEq, Eq, Structural)]
pub enum Key {
    Char(char),
    Enter,
    Esc,
    Tab,
    Up,
    Down,
    Other,
}

} // verus!
