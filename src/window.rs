//! The attributes of a window, each finished from the window system's answer,
//! and the report that shows them.
use vstd::prelude::*;
use crate::path::{outcome_text, PathOutcome};
use crate::rect::{rect_text, RECT};
use crate::render::{digits, push_digits};
use crate::wide::{shown_text, wide_text};

verus! {

/// The handle the window system gives when no window has the focus.
pub const NO_WINDOW: usize = 0;

/// What `format!("{:?}", s)` yields for a text: the text in double quotes,
/// with its special characters escaped.
pub uninterp spec fn debug_quoted(s: Seq<char>) -> Seq<char>;

/// Relies on `str`'s `Debug` formatting: it quotes and escapes the text, and
/// the result depends on the text alone.
#[verifier::external_body]
fn quoted(s: &str) -> (r: String)
    ensures
        r@ == debug_quoted(s@),
{
    format!("{:?}", s)
}

/// A text attribute: empty for the sentinel handle, else the buffer's text.
pub open spec fn text_of(hwnd: usize, units: Seq<u16>) -> Seq<char> {
    if hwnd == NO_WINDOW {
        Seq::empty()
    } else {
        shown_text(units)
    }
}

/// The rectangle: all zero for the sentinel handle, else the one reported.
pub open spec fn rect_of(hwnd: usize, reported: RECT) -> RECT {
    if hwnd == NO_WINDOW {
        RECT { left: 0, top: 0, right: 0, bottom: 0 }
    } else {
        reported
    }
}

/// The process identifier: zero for the sentinel handle, else the one reported.
pub open spec fn pid_of(hwnd: usize, reported: u32) -> u32 {
    if hwnd == NO_WINDOW {
        0
    } else {
        reported
    }
}

/// The executable path: empty for the sentinel handle, else what the path
/// query found, empty when it found nothing.
pub open spec fn path_of(hwnd: usize, outcome: PathOutcome) -> Seq<char> {
    if hwnd == NO_WINDOW {
        Seq::empty()
    } else {
        outcome_text(outcome)
    }
}

/// The window's title, from the buffer the window system filled.
pub fn get_title(hwnd: usize, units: &[u16]) -> (r: String)
    ensures
        r@ == text_of(hwnd, units@),
{
    if hwnd == NO_WINDOW {
        String::new()
    } else {
        wide_text(units)
    }
}

/// The window's class name, from the buffer the window system filled.
pub fn get_class_name(hwnd: usize, units: &[u16]) -> (r: String)
    ensures
        r@ == text_of(hwnd, units@),
{
    if hwnd == NO_WINDOW {
        String::new()
    } else {
        wide_text(units)
    }
}

/// The window's bounding box, from the one the window system reported.
pub fn get_rect(hwnd: usize, reported: RECT) -> (r: RECT)
    ensures
        r == rect_of(hwnd, reported),
{
    if hwnd == NO_WINDOW {
        RECT::zero()
    } else {
        reported
    }
}

/// The identifier of the window's process, from the one the window system reported.
pub fn get_process_id(hwnd: usize, reported: u32) -> (r: u32)
    ensures
        r == pid_of(hwnd, reported),
{
    if hwnd == NO_WINDOW {
        0
    } else {
        reported
    }
}

/// The executable path of the window's process, from how the path query ended.
pub fn get_process_path(hwnd: usize, outcome: &PathOutcome) -> (r: String)
    ensures
        r@ == path_of(hwnd, *outcome),
{
    if hwnd == NO_WINDOW {
        String::new()
    } else {
        outcome.text()
    }
}

/// The six lines of the report, from the handle and the attribute values.
pub open spec fn report_of(
    hwnd: usize,
    title: Seq<char>,
    rect: RECT,
    process_id: u32,
    class_name: Seq<char>,
    process_path: Seq<char>,
) -> Seq<Seq<char>> {
    seq![
        "hwnd: 0x"@ + digits(hwnd as nat, 16),
        "title: "@ + debug_quoted(title),
        "rect: "@ + rect_text(rect),
        "process_id: "@ + digits(process_id as nat, 10),
        "class_name: "@ + class_name,
        "process_path: "@ + process_path,
    ]
}

/// A snapshot of the focused window's attributes.
#[derive(Debug, Clone, PartialEq, Eq)]
pub struct WindowDescriptor {
    pub hwnd: usize,
    pub title: String,
    pub rect: RECT,
    pub process_id: u32,
    pub class_name: String,
    pub process_path: String,
}

impl WindowDescriptor {
    /// Assembles the snapshot of the window `hwnd` from the window system's
    /// answers to each attribute query; every attribute degrades to its empty
    /// or zero value for the sentinel handle.
    pub fn assemble(
        hwnd: usize,
        title_units: &[u16],
        rect: RECT,
        process_id: u32,
        class_units: &[u16],
        path: &PathOutcome,
    ) -> (d: WindowDescriptor)
        ensures
            d.hwnd == hwnd,
            d.title@ == text_of(hwnd, title_units@),
            d.rect == rect_of(hwnd, rect),
            d.process_id == pid_of(hwnd, process_id),
            d.class_name@ == text_of(hwnd, class_units@),
            d.process_path@ == path_of(hwnd, *path),
    {
        WindowDescriptor {
            hwnd,
            title: get_title(hwnd, title_units),
            rect: get_rect(hwnd, rect),
            process_id: get_process_id(hwnd, process_id),
            class_name: get_class_name(hwnd, class_units),
            process_path: get_process_path(hwnd, path),
        }
    }

    pub open spec fn report(&self) -> Seq<Seq<char>> {
        report_of(
            self.hwnd,
            self.title@,
            self.rect,
            self.process_id,
            self.class_name@,
            self.process_path@,
        )
    }

    /// The report's six lines, in the order hwnd, title, rect, process_id,
    /// class_name, process_path.
    pub fn render_report(&self) -> (r: Vec<String>)
        ensures
            r@.len() == 6,
            forall|i: int| 0 <= i < 6 ==> r@[i]@ == self.report()[i],
    {
        let mut l0 = String::new();
        l0.append("hwnd: 0x");
        push_digits(&mut l0, self.hwnd as u64, 16);
        let mut l1 = String::new();
        l1.append("title: ");
        let q = quoted(self.title.as_str());
        l1.append(q.as_str());
        let mut l2 = String::new();
        l2.append("rect: ");
        let rt = self.rect.to_string();
        l2.append(rt.as_str());
        let mut l3 = String::new();
        l3.append("process_id: ");
        push_digits(&mut l3, self.process_id as u64, 10);
        let mut l4 = String::new();
        l4.append("class_name: ");
        l4.append(self.class_name.as_str());
        let mut l5 = String::new();
        l5.append("process_path: ");
        l5.append(self.process_path.as_str());
        let mut lines: Vec<String> = Vec::new();
        lines.push(l0);
        lines.push(l1);
        lines.push(l2);
        lines.push(l3);
        lines.push(l4);
        lines.push(l5);
        lines
    }
}

/// With the sentinel handle every attribute takes its degraded value, whatever
/// the window system answered: empty texts, a zero rectangle, process 0.
pub proof fn lemma_sentinel_degrades(
    title_units: Seq<u16>,
    rect: RECT,
    process_id: u32,
    class_units: Seq<u16>,
    path: PathOutcome,
)
    ensures
        text_of(NO_WINDOW, title_units) == Seq::<char>::empty(),
        rect_of(NO_WINDOW, rect) == (RECT { left: 0, top: 0, right: 0, bottom: 0 }),
        pid_of(NO_WINDOW, process_id) == 0,
        text_of(NO_WINDOW, class_units) == Seq::<char>::empty(),
        path_of(NO_WINDOW, path) == Seq::<char>::empty(),
{
}

/// When the process cannot be opened, only the report's process_path line
/// changes, to an empty path; the other five lines are those of the run in
/// which the path query ended any other way.
pub proof fn lemma_path_failure_isolated(
    hwnd: usize,
    title_units: Seq<u16>,
    rect: RECT,
    process_id: u32,
    class_units: Seq<u16>,
    path: PathOutcome,
)
    ensures
        ({
            let failed = report_of(
                hwnd,
                text_of(hwnd, title_units),
                rect_of(hwnd, rect),
                pid_of(hwnd, process_id),
                text_of(hwnd, class_units),
                path_of(hwnd, PathOutcome::OpenFailed),
            );
            let other = report_of(
                hwnd,
                text_of(hwnd, title_units),
                rect_of(hwnd, rect),
                pid_of(hwnd, process_id),
                text_of(hwnd, class_units),
                path_of(hwnd, path),
            );
            &&& failed.len() == 6
            &&& other.len() == 6
            &&& forall|i: int| 0 <= i < 5 ==> failed[i] == other[i]
            &&& failed[5] == "process_path: "@
        }),
{
    let failed = report_of(
        hwnd,
        text_of(hwnd, title_units),
        rect_of(hwnd, rect),
        pid_of(hwnd, process_id),
        text_of(hwnd, class_units),
        path_of(hwnd, PathOutcome::OpenFailed),
    );
    assert(failed[5] =~= "process_path: "@);
}

} // verus!
