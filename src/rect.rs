//! A window's bounding box in screen coordinates.
use vstd::prelude::*;
use crate::render::{push_signed, signed_decimal};

verus! {

/// Four screen coordinates, as the window system reports them for a window.
/// They are taken as given: `right >= left` and `bottom >= top` are expected
/// of the window system but not required here.
#[allow(non_camel_case_types)]
#[derive(Debug, Clone, Copy, PartialEq, Eq, Structural)]
pub struct RECT {
    pub left: i32,
    pub top: i32,
    pub right: i32,
    pub bottom: i32,
}

/// `RECT { left: <l>, top: <t>, right: <r>, bottom: <b> }`.
pub open spec fn rect_text(r: RECT) -> Seq<char> {
    "RECT { left: "@ + signed_decimal(r.left as int) + ", top: "@ + signed_decimal(r.top as int)
        + ", right: "@ + signed_decimal(r.right as int) + ", bottom: "@ + signed_decimal(
        r.bottom as int,
    ) + " }"@
}

impl RECT {
    pub fn new(left: i32, top: i32, right: i32, bottom: i32) -> (r: RECT)
        ensures
            r == (RECT { left, top, right, bottom }),
    {
        RECT { left, top, right, bottom }
    }

    /// The rectangle reported for a window that could not be queried.
    pub fn zero() -> (r: RECT)
        ensures
            r == (RECT { left: 0, top: 0, right: 0, bottom: 0 }),
    {
        RECT { left: 0, top: 0, right: 0, bottom: 0 }
    }

    /// The text form of the rectangle, as the report shows it.
    pub fn to_string(&self) -> (s: String)
        ensures
            s@ == rect_text(*self),
    {
        let mut s = String::new();
        s.append("RECT { left: ");
        push_signed(&mut s, self.left as i64);
        s.append(", top: ");
        push_signed(&mut s, self.top as i64);
        s.append(", right: ");
        push_signed(&mut s, self.right as i64);
        s.append(", bottom: ");
        push_signed(&mut s, self.bottom as i64);
        s.append(" }");
        assert(s@ =~= rect_text(*self));
        s
    }
}

} // verus!
