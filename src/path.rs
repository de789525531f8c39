//! The decisions of the process executable path query. The window system's
//! calls are made by the caller: each step takes the answer to the last
//! action and names the next one. A process handle, once opened, is closed
//! exactly once, whether the image name could be read or not.
use vstd::prelude::*;
use crate::wide::{decode_wide, utf16_text, text_units};

verus! {

/// Where the query stands.
#[allow(inconsistent_fields)]
#[derive(Debug, Clone, PartialEq, Eq)]
pub enum PathQuery {
    /// Waiting for the process with this identifier to be opened.
    Opening { pid: u32 },
    /// The process is open under `handle`; waiting for its image name.
    Reading { handle: usize },
    /// The image name arrived in `units`; waiting for `handle` to be closed.
    Releasing { handle: usize, units: Vec<u16> },
    /// Done: the image name buffer, or `None` when the process could not be opened.
    Finished { units: Option<Vec<u16>> },
}

/// The window system's answer to the last action.
#[derive(Debug, Clone, PartialEq, Eq)]
pub enum PathEvent {
    /// The process was opened under `handle`; 0 means it could not be opened.
    Opened { handle: usize },
    /// The image name buffer, filled as far as the window system could.
    ImageName { units: Vec<u16> },
    /// The process handle was closed.
    Closed,
}

/// What the caller is to ask of the window system next.
#[derive(Debug, Clone, Copy, PartialEq, Eq, Structural)]
pub enum PathAction {
    OpenProcess { pid: u32 },
    QueryImageName { handle: usize },
    CloseProcess { handle: usize },
}

/// How the query ended.
#[derive(Debug, Clone, PartialEq, Eq)]
pub enum PathOutcome {
    /// The image path of the process.
    Path(String),
    /// The process could not be opened (it is gone, or access was refused).
    OpenFailed,
    /// The image name buffer held malformed UTF-16.
    Undecodable,
}

/// One step: the next state and the next action, if any. An event that does
/// not answer the pending action changes nothing and asks for nothing.
pub open spec fn step_spec(s: PathQuery, e: PathEvent) -> (PathQuery, Option<PathAction>) {
    match s {
        PathQuery::Opening { pid } => match e {
            PathEvent::Opened { handle } => if handle == 0 {
                (PathQuery::Finished { units: None }, None)
            } else {
                (PathQuery::Reading { handle }, Some(PathAction::QueryImageName { handle }))
            },
            _ => (s, None),
        },
        PathQuery::Reading { handle } => match e {
            PathEvent::ImageName { units } => (
                PathQuery::Releasing { handle, units },
                Some(PathAction::CloseProcess { handle }),
            ),
            _ => (s, None),
        },
        PathQuery::Releasing { handle, units } => match e {
            PathEvent::Closed => (PathQuery::Finished { units: Some(units) }, None),
            _ => (s, None),
        },
        PathQuery::Finished { .. } => (s, None),
    }
}

/// Whether the state holds an open process handle whose close is yet to be
/// asked for.
pub open spec fn holds_handle(s: PathQuery) -> nat {
    match s {
        PathQuery::Reading { .. } => 1,
        _ => 0,
    }
}

/// Whether a step on `e` from `s` takes a freshly opened process handle.
pub open spec fn acquires(s: PathQuery, e: PathEvent) -> nat {
    match (s, e) {
        (PathQuery::Opening { .. }, PathEvent::Opened { handle }) => if handle != 0 { 1 } else { 0 },
        _ => 0,
    }
}

/// Whether an action closes a process handle.
pub open spec fn releases(a: Option<PathAction>) -> nat {
    match a {
        Some(PathAction::CloseProcess { .. }) => 1,
        _ => 0,
    }
}

/// The state after the events, one step each.
pub open spec fn run_state(s: PathQuery, evs: Seq<PathEvent>) -> PathQuery
    decreases evs.len(),
{
    if evs.len() == 0 {
        s
    } else {
        run_state(step_spec(s, evs[0]).0, evs.drop_first())
    }
}

/// How many process handles the steps on the events opened.
pub open spec fn run_acquired(s: PathQuery, evs: Seq<PathEvent>) -> nat
    decreases evs.len(),
{
    if evs.len() == 0 {
        0
    } else {
        acquires(s, evs[0]) + run_acquired(step_spec(s, evs[0]).0, evs.drop_first())
    }
}

/// How many close actions the steps on the events asked for.
pub open spec fn run_released(s: PathQuery, evs: Seq<PathEvent>) -> nat
    decreases evs.len(),
{
    if evs.len() == 0 {
        0
    } else {
        releases(step_spec(s, evs[0]).1) + run_released(step_spec(s, evs[0]).0, evs.drop_first())
    }
}

impl PathQuery {
    /// Starts the query for the process `pid`: its first action opens it.
    pub fn begin(pid: u32) -> (r: (PathQuery, PathAction))
        ensures
            r == (PathQuery::Opening { pid }, PathAction::OpenProcess { pid }),
    {
        (PathQuery::Opening { pid }, PathAction::OpenProcess { pid })
    }

    /// Takes the answer to the pending action.
    pub fn step(self, e: PathEvent) -> (r: (PathQuery, Option<PathAction>))
        ensures
            r == step_spec(self, e),
    {
        match self {
            PathQuery::Opening { pid } => match e {
                PathEvent::Opened { handle } => if handle == 0 {
                    (PathQuery::Finished { units: None }, None)
                } else {
                    (PathQuery::Reading { handle }, Some(PathAction::QueryImageName { handle }))
                },
                _ => (PathQuery::Opening { pid }, None),
            },
            PathQuery::Reading { handle } => match e {
                PathEvent::ImageName { units } => (
                    PathQuery::Releasing { handle, units },
                    Some(PathAction::CloseProcess { handle }),
                ),
                _ => (PathQuery::Reading { handle }, None),
            },
            PathQuery::Releasing { handle, units } => match e {
                PathEvent::Closed => (PathQuery::Finished { units: Some(units) }, None),
                _ => (PathQuery::Releasing { handle, units }, None),
            },
            PathQuery::Finished { units } => (PathQuery::Finished { units }, None),
        }
    }

    pub fn is_finished(&self) -> (r: bool)
        ensures
            r == (*self is Finished),
    {
        match self {
            PathQuery::Finished { .. } => true,
            _ => false,
        }
    }

    /// How the query ended, once it has.
    pub fn outcome(&self) -> (r: Option<PathOutcome>)
        ensures
            r is Some <==> *self is Finished,
            match *self {
                PathQuery::Finished { units: None } => r == Some(PathOutcome::OpenFailed),
                PathQuery::Finished { units: Some(u) } => match utf16_text(text_units(u@)) {
                    Some(t) => r is Some && r.unwrap() is Path && r.unwrap()->Path_0@ == t,
                    None => r == Some(PathOutcome::Undecodable),
                },
                _ => true,
            },
    {
        match self {
            PathQuery::Finished { units: None } => Some(PathOutcome::OpenFailed),
            PathQuery::Finished { units: Some(u) } => match decode_wide(u.as_slice()) {
                Ok(t) => Some(PathOutcome::Path(t)),
                Err(_) => Some(PathOutcome::Undecodable),
            },
            _ => None,
        }
    }
}

/// The text of the path shown in the report: empty unless a path was found.
pub open spec fn outcome_text(o: PathOutcome) -> Seq<char> {
    match o {
        PathOutcome::Path(p) => p@,
        _ => Seq::empty(),
    }
}

impl PathOutcome {
    pub fn text(&self) -> (r: String)
        ensures
            r@ == outcome_text(*self),
    {
        match self {
            PathOutcome::Path(p) => p.clone(),
            _ => String::new(),
        }
    }
}

proof fn lemma_step_balance(s: PathQuery, e: PathEvent)
    ensures
        releases(step_spec(s, e).1) + holds_handle(step_spec(s, e).0) == acquires(s, e)
            + holds_handle(s),
        acquires(s, e) == 1 ==> s is Opening,
        !(s is Opening) ==> !(step_spec(s, e).0 is Opening),
{
}

/// Every handle opened is closed once: over any events, the closes asked
/// for and the handle still held balance the handles opened and the one held
/// at the start.
pub proof fn lemma_handles_balance(s: PathQuery, evs: Seq<PathEvent>)
    ensures
        run_released(s, evs) + holds_handle(run_state(s, evs)) == run_acquired(s, evs)
            + holds_handle(s),
        run_acquired(s, evs) <= (if s is Opening { 1nat } else { 0nat }),
    decreases evs.len(),
{
    if evs.len() > 0 {
        lemma_step_balance(s, evs[0]);
        lemma_handles_balance(step_spec(s, evs[0]).0, evs.drop_first());
    }
}

/// A path query started on any process opens at most one handle, and once it
/// has finished it has closed exactly the handles it opened, whether the
/// process could be opened or not and whatever the image name held.
pub proof fn lemma_handle_released_once(pid: u32, evs: Seq<PathEvent>)
    ensures
        run_acquired(PathQuery::Opening { pid }, evs) <= 1,
        run_released(PathQuery::Opening { pid }, evs) <= 1,
        run_state(PathQuery::Opening { pid }, evs) is Finished ==> run_released(
            PathQuery::Opening { pid },
            evs,
        ) == run_acquired(PathQuery::Opening { pid }, evs),
{
    lemma_handles_balance(PathQuery::Opening { pid }, evs);
}

} // verus!
