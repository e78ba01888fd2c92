//! The search for the window that receives an outbound XDND drag.
//!
//! A real XDND source descends from the root to the window under the pointer,
//! then climbs back up to the first window that takes drops. Two things are
//! added to that walk: a compositor bridge window (one that takes drops but has
//! neither class nor title) gives way to a named window in the same place, and
//! when the climb finds nothing, bridge windows and the active window are tried.
//! The source window and the editor that the drag came from never count.

use vstd::prelude::*;

use crate::desktop::{DesktopFacts, Finding, FindingView, Knowledge, Question, TreeNode, NO_WINDOW};
use crate::monitors::{contains_point, in_rect};

verus! {

broadcast use vstd::std_specs::hash::group_hash_axioms;

/// The windows that take part in a search besides the candidates.
#[derive(Clone, Copy, Debug, PartialEq, Eq, Structural)]
pub struct Probe {
    /// Root window of the screen.
    pub root: u32,
    /// Window that owns the drag selection.
    pub source: u32,
    /// Editor window that the drag came from.
    pub origin: Option<u32>,
}

/// Whether `window` is the editor window that the drag came from.
pub fn is_drag_origin_window(origin_window: Option<u32>, window: u32) -> (is_origin: bool)
    ensures
        is_origin == (origin_window == Some(window)),
{
    match origin_window {
        Some(origin) => origin == window,
        None => false,
    }
}

impl Probe {
    /// Whether a window is passed over: it is the source or the origin.
    pub open spec fn passes_over(self, window: u32) -> bool {
        window == self.source || self.origin == Some(window)
    }

    pub(crate) fn skips(&self, window: u32) -> (skipped: bool)
        ensures
            skipped == self.passes_over(window),
    {
        window == self.source || is_drag_origin_window(self.origin, window)
    }
}

/// Where the descent goes from a window.
#[derive(Clone, Copy, Debug, PartialEq, Eq, Structural)]
pub enum Descent {
    /// A child lies under the pointer.
    Into(u32),
    /// The descent ends here; `None` when the window itself is passed over.
    Ends(Option<u32>),
}

/// Where the climb goes from a window.
#[derive(Clone, Copy, Debug, PartialEq, Eq, Structural)]
pub enum Climb {
    /// The search is over.
    Settled(Option<u32>),
    /// The parent is the next candidate.
    Up(u32),
    /// There is no parent.
    Exhausted,
}

// ---------------------------------------------------------------------------
// Single questions
// ---------------------------------------------------------------------------

/// Whether a window takes drops; a failed reply is an error.
pub open spec fn aware(k: Knowledge, w: u32) -> FindingView<bool> {
    if !k.aware.contains_key(w) {
        FindingView::Ask(Question::Aware(w))
    } else {
        match k.aware[w] {
            Ok(flag) => FindingView::Known(flag),
            Err(message) => FindingView::Failed(message),
        }
    }
}

/// Whether a window takes drops; a failed reply counts as no.
pub open spec fn maybe_aware(k: Knowledge, w: u32) -> FindingView<bool> {
    if !k.aware.contains_key(w) {
        FindingView::Ask(Question::Aware(w))
    } else {
        FindingView::Known(k.surely_aware(w))
    }
}

/// Whether a window has a class or a title.
pub open spec fn named(k: Knowledge, w: u32) -> FindingView<bool> {
    if !k.named.contains_key(w) {
        FindingView::Ask(Question::Identity(w))
    } else {
        FindingView::Known(k.named[w])
    }
}

/// Whether a window lies under the pointer.
pub open spec fn under_pointer(k: Knowledge, w: u32) -> FindingView<bool> {
    if !k.under.contains_key(w) {
        FindingView::Ask(Question::UnderPointer(w))
    } else {
        FindingView::Known(k.under[w])
    }
}

/// The window that stands in for `w`: its proxy, or itself.
pub open spec fn stand_in(k: Knowledge, w: u32) -> FindingView<u32> {
    if !k.proxies.contains_key(w) {
        FindingView::Ask(Question::Proxy(w))
    } else {
        match k.proxies[w] {
            Ok(Some(proxy)) => FindingView::Known(proxy),
            Ok(None) => FindingView::Known(w),
            Err(message) => FindingView::Failed(message),
        }
    }
}

/// The tree node of a window.
pub open spec fn tree(k: Knowledge, w: u32) -> FindingView<TreeNode> {
    if !k.trees.contains_key(w) {
        FindingView::Ask(Question::Tree(w))
    } else {
        match k.trees[w] {
            Ok(node) => FindingView::Known(node),
            Err(message) => FindingView::Failed(message),
        }
    }
}

fn find_aware(facts: &DesktopFacts, w: u32) -> (found: Finding<bool>)
    ensures
        found@ == aware(facts@, w),
{
    match facts.aware.get(&w) {
        None => Finding::Ask(Question::Aware(w)),
        Some(Ok(flag)) => Finding::Known(*flag),
        Some(Err(message)) => Finding::Failed(message.clone()),
    }
}

fn find_maybe_aware(facts: &DesktopFacts, w: u32) -> (found: Finding<bool>)
    ensures
        found@ == maybe_aware(facts@, w),
{
    match facts.aware.get(&w) {
        None => Finding::Ask(Question::Aware(w)),
        Some(Ok(flag)) => Finding::Known(*flag),
        Some(Err(_)) => Finding::Known(false),
    }
}

fn find_named(facts: &DesktopFacts, w: u32) -> (found: Finding<bool>)
    ensures
        found@ == named(facts@, w),
{
    match facts.named.get(&w) {
        None => Finding::Ask(Question::Identity(w)),
        Some(flag) => Finding::Known(*flag),
    }
}

pub(crate) fn find_under_pointer(facts: &DesktopFacts, w: u32) -> (found: Finding<bool>)
    ensures
        found@ == under_pointer(facts@, w),
{
    match facts.under.get(&w) {
        None => Finding::Ask(Question::UnderPointer(w)),
        Some(flag) => Finding::Known(*flag),
    }
}

fn find_stand_in(facts: &DesktopFacts, w: u32) -> (found: Finding<u32>)
    ensures
        found@ == stand_in(facts@, w),
{
    match facts.proxies.get(&w) {
        None => Finding::Ask(Question::Proxy(w)),
        Some(Ok(Some(proxy))) => Finding::Known(*proxy),
        Some(Ok(None)) => Finding::Known(w),
        Some(Err(message)) => Finding::Failed(message.clone()),
    }
}

// ---------------------------------------------------------------------------
// Bridges and real targets
// ---------------------------------------------------------------------------

/// A compositor bridge: takes drops, has neither class nor title.
pub open spec fn anonymous_bridge(k: Knowledge, w: u32) -> FindingView<bool> {
    match maybe_aware(k, w) {
        FindingView::Known(true) => match named(k, w) {
            FindingView::Known(flag) => FindingView::Known(!flag),
            other => other,
        },
        other => other,
    }
}

/// A real X11 target: takes drops, and has a class or a title.
pub open spec fn real_target(k: Knowledge, w: u32) -> FindingView<bool> {
    match maybe_aware(k, w) {
        FindingView::Known(true) => named(k, w),
        other => other,
    }
}

/// Whether a window is a compositor bridge.
pub fn is_anonymous_xdnd_bridge(facts: &DesktopFacts, w: u32) -> (found: Finding<bool>)
    ensures
        found@ == anonymous_bridge(facts@, w),
{
    match find_maybe_aware(facts, w) {
        Finding::Known(true) => match find_named(facts, w) {
            Finding::Known(flag) => Finding::Known(!flag),
            other => other,
        },
        other => other,
    }
}

/// Whether a window is a real X11 target.
pub fn is_real_xdnd_target(facts: &DesktopFacts, w: u32) -> (found: Finding<bool>)
    ensures
        found@ == real_target(facts@, w),
{
    match find_maybe_aware(facts, w) {
        Finding::Known(true) => find_named(facts, w),
        other => other,
    }
}

// ---------------------------------------------------------------------------
// Scans over children, from the top of the stack down
// ---------------------------------------------------------------------------

/// The topmost of the first `n` children that lies under the pointer.
pub open spec fn hit_child(k: Knowledge, p: Probe, children: Seq<u32>, n: nat) -> FindingView<
    Option<u32>,
>
    decreases n,
{
    if n == 0 {
        FindingView::Known(None)
    } else {
        let w = children[n - 1];
        let rest = hit_child(k, p, children, (n - 1) as nat);
        if p.passes_over(w) {
            rest
        } else {
            match under_pointer(k, w) {
                FindingView::Ask(question) => FindingView::Ask(question),
                FindingView::Failed(message) => FindingView::Failed(message),
                FindingView::Known(true) => FindingView::Known(Some(w)),
                FindingView::Known(false) => rest,
            }
        }
    }
}

/// The stand-in of the topmost of the first `n` children that is a named drop
/// target under the pointer.
pub open spec fn real_child(k: Knowledge, p: Probe, children: Seq<u32>, n: nat) -> FindingView<
    Option<u32>,
>
    decreases n,
{
    if n == 0 {
        FindingView::Known(None)
    } else {
        let w = children[n - 1];
        let rest = real_child(k, p, children, (n - 1) as nat);
        if p.passes_over(w) {
            rest
        } else {
            match real_target(k, w) {
                FindingView::Ask(question) => FindingView::Ask(question),
                FindingView::Failed(message) => FindingView::Failed(message),
                FindingView::Known(false) => rest,
                FindingView::Known(true) => match under_pointer(k, w) {
                    FindingView::Ask(question) => FindingView::Ask(question),
                    FindingView::Failed(message) => FindingView::Failed(message),
                    FindingView::Known(false) => rest,
                    FindingView::Known(true) => settle(stand_in(k, w)),
                },
            }
        }
    }
}

/// The stand-in of the topmost of the first `n` children that is a compositor
/// bridge under the pointer.
pub open spec fn bridge_child(k: Knowledge, p: Probe, children: Seq<u32>, n: nat) -> FindingView<
    Option<u32>,
>
    decreases n,
{
    if n == 0 {
        FindingView::Known(None)
    } else {
        let w = children[n - 1];
        let rest = bridge_child(k, p, children, (n - 1) as nat);
        if p.passes_over(w) {
            rest
        } else {
            match maybe_aware(k, w) {
                FindingView::Ask(question) => FindingView::Ask(question),
                FindingView::Failed(message) => FindingView::Failed(message),
                FindingView::Known(false) => rest,
                FindingView::Known(true) => match under_pointer(k, w) {
                    FindingView::Ask(question) => FindingView::Ask(question),
                    FindingView::Failed(message) => FindingView::Failed(message),
                    FindingView::Known(false) => rest,
                    FindingView::Known(true) => match named(k, w) {
                        FindingView::Ask(question) => FindingView::Ask(question),
                        FindingView::Failed(message) => FindingView::Failed(message),
                        FindingView::Known(true) => rest,
                        FindingView::Known(false) => settle(stand_in(k, w)),
                    },
                },
            }
        }
    }
}

/// A found window as the result of a search.
pub open spec fn settle(found: FindingView<u32>) -> FindingView<Option<u32>> {
    match found {
        FindingView::Ask(question) => FindingView::Ask(question),
        FindingView::Failed(message) => FindingView::Failed(message),
        FindingView::Known(w) => FindingView::Known(Some(w)),
    }
}

fn settled(found: Finding<u32>) -> (result: Finding<Option<u32>>)
    ensures
        result@ == settle(found@),
{
    match found {
        Finding::Ask(question) => Finding::Ask(question),
        Finding::Failed(message) => Finding::Failed(message),
        Finding::Known(w) => Finding::Known(Some(w)),
    }
}

fn find_hit_child(facts: &DesktopFacts, p: &Probe, children: &Vec<u32>) -> (found: Finding<
    Option<u32>,
>)
    ensures
        found@ == hit_child(facts@, *p, children@, children@.len()),
{
    let mut n: usize = children.len();
    while n > 0
        invariant
            n <= children@.len(),
            hit_child(facts@, *p, children@, children@.len()) == hit_child(
                facts@,
                *p,
                children@,
                n as nat,
            ),
        decreases n,
    {
        let w = children[n - 1];
        if !p.skips(w) {
            match find_under_pointer(facts, w) {
                Finding::Ask(question) => {
                    return Finding::Ask(question);
                },
                Finding::Failed(message) => {
                    return Finding::Failed(message);
                },
                Finding::Known(true) => {
                    return Finding::Known(Some(w));
                },
                Finding::Known(false) => {},
            }
        }
        n = n - 1;
    }
    Finding::Known(None)
}

fn find_real_child(facts: &DesktopFacts, p: &Probe, children: &Vec<u32>) -> (found: Finding<
    Option<u32>,
>)
    ensures
        found@ == real_child(facts@, *p, children@, children@.len()),
{
    let mut n: usize = children.len();
    while n > 0
        invariant
            n <= children@.len(),
            real_child(facts@, *p, children@, children@.len()) == real_child(
                facts@,
                *p,
                children@,
                n as nat,
            ),
        decreases n,
    {
        let w = children[n - 1];
        if !p.skips(w) {
            match is_real_xdnd_target(facts, w) {
                Finding::Ask(question) => {
                    return Finding::Ask(question);
                },
                Finding::Failed(message) => {
                    return Finding::Failed(message);
                },
                Finding::Known(true) => {
                    match find_under_pointer(facts, w) {
                        Finding::Ask(question) => {
                            return Finding::Ask(question);
                        },
                        Finding::Failed(message) => {
                            return Finding::Failed(message);
                        },
                        Finding::Known(true) => {
                            return settled(find_stand_in(facts, w));
                        },
                        Finding::Known(false) => {},
                    }
                },
                Finding::Known(false) => {},
            }
        }
        n = n - 1;
    }
    Finding::Known(None)
}

fn find_bridge_child(facts: &DesktopFacts, p: &Probe, children: &Vec<u32>) -> (found: Finding<
    Option<u32>,
>)
    ensures
        found@ == bridge_child(facts@, *p, children@, children@.len()),
{
    let mut n: usize = children.len();
    while n > 0
        invariant
            n <= children@.len(),
            bridge_child(facts@, *p, children@, children@.len()) == bridge_child(
                facts@,
                *p,
                children@,
                n as nat,
            ),
        decreases n,
    {
        let w = children[n - 1];
        if !p.skips(w) {
            match find_maybe_aware(facts, w) {
                Finding::Ask(question) => {
                    return Finding::Ask(question);
                },
                Finding::Failed(message) => {
                    return Finding::Failed(message);
                },
                Finding::Known(true) => {
                    match find_under_pointer(facts, w) {
                        Finding::Ask(question) => {
                            return Finding::Ask(question);
                        },
                        Finding::Failed(message) => {
                            return Finding::Failed(message);
                        },
                        Finding::Known(true) => {
                            match find_named(facts, w) {
                                Finding::Ask(question) => {
                                    return Finding::Ask(question);
                                },
                                Finding::Failed(message) => {
                                    return Finding::Failed(message);
                                },
                                Finding::Known(false) => {
                                    return settled(find_stand_in(facts, w));
                                },
                                Finding::Known(true) => {},
                            }
                        },
                        Finding::Known(false) => {},
                    }
                },
                Finding::Known(false) => {},
            }
        }
        n = n - 1;
    }
    Finding::Known(None)
}

// ---------------------------------------------------------------------------
// Toplevel windows at the pointer
// ---------------------------------------------------------------------------

/// The topmost named drop target among the toplevel windows under the pointer.
pub open spec fn real_child_at(k: Knowledge, p: Probe) -> FindingView<Option<u32>> {
    match tree(k, p.root) {
        FindingView::Ask(question) => FindingView::Ask(question),
        FindingView::Failed(message) => FindingView::Failed(message),
        FindingView::Known(node) => real_child(k, p, node.children, node.children.len()),
    }
}

/// The topmost compositor bridge among the toplevel windows under the pointer.
pub open spec fn bridge_child_at(k: Knowledge, p: Probe) -> FindingView<Option<u32>> {
    match tree(k, p.root) {
        FindingView::Ask(question) => FindingView::Ask(question),
        FindingView::Failed(message) => FindingView::Failed(message),
        FindingView::Known(node) => bridge_child(k, p, node.children, node.children.len()),
    }
}

/// The topmost named drop target among the toplevel windows under the pointer.
pub fn real_xdnd_child_at(facts: &DesktopFacts, p: &Probe) -> (found: Finding<Option<u32>>)
    ensures
        found@ == real_child_at(facts@, *p),
{
    match facts.trees.get(&p.root) {
        None => Finding::Ask(Question::Tree(p.root)),
        Some(Err(message)) => Finding::Failed(message.clone()),
        Some(Ok(node)) => find_real_child(facts, p, &node.children),
    }
}

/// The topmost compositor bridge among the toplevel windows under the pointer.
pub fn xdnd_bridge_child(facts: &DesktopFacts, p: &Probe) -> (found: Finding<Option<u32>>)
    ensures
        found@ == bridge_child_at(facts@, *p),
{
    match facts.trees.get(&p.root) {
        None => Finding::Ask(Question::Tree(p.root)),
        Some(Err(message)) => Finding::Failed(message.clone()),
        Some(Ok(node)) => find_bridge_child(facts, p, &node.children),
    }
}

/// The active window, when it takes drops and is not the origin.
pub open spec fn active_target(k: Knowledge, p: Probe) -> FindingView<Option<u32>> {
    match k.active {
        None => FindingView::Ask(Question::ActiveWindow),
        Some(Err(message)) => FindingView::Failed(message),
        Some(Ok(None)) => FindingView::Known(None),
        Some(Ok(Some(w))) => match aware(k, w) {
            FindingView::Ask(question) => FindingView::Ask(question),
            FindingView::Failed(message) => FindingView::Failed(message),
            FindingView::Known(false) => FindingView::Known(None),
            FindingView::Known(true) => if p.origin == Some(w) {
                FindingView::Known(None)
            } else {
                settle(stand_in(k, w))
            },
        },
    }
}

/// The active window, when it takes drops and is not the origin.
pub fn active_xdnd_target(facts: &DesktopFacts, p: &Probe) -> (found: Finding<Option<u32>>)
    ensures
        found@ == active_target(facts@, *p),
{
    match &facts.active {
        None => Finding::Ask(Question::ActiveWindow),
        Some(Err(message)) => Finding::Failed(message.clone()),
        Some(Ok(None)) => Finding::Known(None),
        Some(Ok(Some(w))) => match find_aware(facts, *w) {
            Finding::Ask(question) => Finding::Ask(question),
            Finding::Failed(message) => Finding::Failed(message),
            Finding::Known(false) => Finding::Known(None),
            Finding::Known(true) => if is_drag_origin_window(p.origin, *w) {
                Finding::Known(None)
            } else {
                settled(find_stand_in(facts, *w))
            },
        },
    }
}

// ---------------------------------------------------------------------------
// One step of the descent and of the climb
// ---------------------------------------------------------------------------

/// Where the descent goes from `current`.
pub open spec fn descend(k: Knowledge, p: Probe, current: u32) -> FindingView<Descent> {
    match tree(k, current) {
        FindingView::Ask(question) => FindingView::Ask(question),
        FindingView::Failed(message) => FindingView::Failed(message),
        FindingView::Known(node) => match hit_child(k, p, node.children, node.children.len()) {
            FindingView::Ask(question) => FindingView::Ask(question),
            FindingView::Failed(message) => FindingView::Failed(message),
            FindingView::Known(None) => FindingView::Known(
                Descent::Ends(
                    if p.passes_over(current) {
                        None
                    } else {
                        Some(current)
                    },
                ),
            ),
            FindingView::Known(Some(child)) => if child == current {
                FindingView::Known(Descent::Ends(Some(current)))
            } else {
                FindingView::Known(Descent::Into(child))
            },
        },
    }
}

/// Where the descent goes from `current`.
pub fn window_at_step(facts: &DesktopFacts, p: &Probe, current: u32) -> (found: Finding<Descent>)
    ensures
        found@ == descend(facts@, *p, current),
{
    match facts.trees.get(&current) {
        None => Finding::Ask(Question::Tree(current)),
        Some(Err(message)) => Finding::Failed(message.clone()),
        Some(Ok(node)) => match find_hit_child(facts, p, &node.children) {
            Finding::Ask(question) => Finding::Ask(question),
            Finding::Failed(message) => Finding::Failed(message),
            Finding::Known(None) => {
                if p.skips(current) {
                    Finding::Known(Descent::Ends(None))
                } else {
                    Finding::Known(Descent::Ends(Some(current)))
                }
            },
            Finding::Known(Some(child)) => {
                if child == current {
                    Finding::Known(Descent::Ends(Some(current)))
                } else {
                    Finding::Known(Descent::Into(child))
                }
            },
        },
    }
}

/// The parent of a window, if it has one.
pub open spec fn parent_climb(k: Knowledge, w: u32) -> FindingView<Climb> {
    match tree(k, w) {
        FindingView::Ask(question) => FindingView::Ask(question),
        FindingView::Failed(message) => FindingView::Failed(message),
        FindingView::Known(node) => FindingView::Known(
            if node.parent == NO_WINDOW {
                Climb::Exhausted
            } else {
                Climb::Up(node.parent)
            },
        ),
    }
}

/// A drop target that the climb settles on.
pub open spec fn climb_settles(found: FindingView<Option<u32>>) -> FindingView<Climb> {
    match found {
        FindingView::Ask(question) => FindingView::Ask(question),
        FindingView::Failed(message) => FindingView::Failed(message),
        FindingView::Known(target) => FindingView::Known(Climb::Settled(target)),
    }
}

/// Where the climb goes from `candidate`.
pub open spec fn climb(k: Knowledge, p: Probe, candidate: u32) -> FindingView<Climb> {
    if p.origin == Some(candidate) {
        FindingView::Known(Climb::Settled(None))
    } else {
        match aware(k, candidate) {
            FindingView::Ask(question) => FindingView::Ask(question),
            FindingView::Failed(message) => FindingView::Failed(message),
            FindingView::Known(false) => parent_climb(k, candidate),
            FindingView::Known(true) => match named(k, candidate) {
                FindingView::Ask(question) => FindingView::Ask(question),
                FindingView::Failed(message) => FindingView::Failed(message),
                FindingView::Known(true) => climb_settles(settle(stand_in(k, candidate))),
                FindingView::Known(false) => match real_child_at(k, p) {
                    FindingView::Ask(question) => FindingView::Ask(question),
                    FindingView::Failed(message) => FindingView::Failed(message),
                    FindingView::Known(Some(target)) => FindingView::Known(
                        Climb::Settled(Some(target)),
                    ),
                    FindingView::Known(None) => climb_settles(settle(stand_in(k, candidate))),
                },
            },
        }
    }
}

fn climb_settled(found: Finding<Option<u32>>) -> (result: Finding<Climb>)
    ensures
        result@ == climb_settles(found@),
{
    match found {
        Finding::Ask(question) => Finding::Ask(question),
        Finding::Failed(message) => Finding::Failed(message),
        Finding::Known(target) => Finding::Known(Climb::Settled(target)),
    }
}

/// The parent of a window, if it has one.
pub fn parent_of(facts: &DesktopFacts, w: u32) -> (found: Finding<Climb>)
    ensures
        found@ == parent_climb(facts@, w),
{
    match facts.trees.get(&w) {
        None => Finding::Ask(Question::Tree(w)),
        Some(Err(message)) => Finding::Failed(message.clone()),
        Some(Ok(node)) => {
            if node.parent == NO_WINDOW {
                Finding::Known(Climb::Exhausted)
            } else {
                Finding::Known(Climb::Up(node.parent))
            }
        },
    }
}

/// Where the climb goes from `candidate`.
pub fn climb_step(facts: &DesktopFacts, p: &Probe, candidate: u32) -> (found: Finding<Climb>)
    ensures
        found@ == climb(facts@, *p, candidate),
{
    if is_drag_origin_window(p.origin, candidate) {
        return Finding::Known(Climb::Settled(None));
    }
    match find_aware(facts, candidate) {
        Finding::Ask(question) => Finding::Ask(question),
        Finding::Failed(message) => Finding::Failed(message),
        Finding::Known(false) => parent_of(facts, candidate),
        Finding::Known(true) => match is_anonymous_xdnd_bridge(facts, candidate) {
            Finding::Ask(question) => Finding::Ask(question),
            Finding::Failed(message) => Finding::Failed(message),
            Finding::Known(false) => climb_settled(settled(find_stand_in(facts, candidate))),
            Finding::Known(true) => match real_xdnd_child_at(facts, p) {
                Finding::Ask(question) => Finding::Ask(question),
                Finding::Failed(message) => Finding::Failed(message),
                Finding::Known(Some(target)) => Finding::Known(Climb::Settled(Some(target))),
                Finding::Known(None) => climb_settled(settled(find_stand_in(facts, candidate))),
            },
        },
    }
}

// ---------------------------------------------------------------------------
// Answers
// ---------------------------------------------------------------------------

/// The answer to [`Question::Identity`]: whether the class, the title or the UTF-8
/// title of a window has a value.
#[must_use]
pub fn has_client_identity(class: &Vec<u8>, title: &Vec<u8>, utf8_title: &Vec<u8>) -> (named: bool)
    ensures
        named == (class@.len() > 0 || title@.len() > 0 || utf8_title@.len() > 0),
{
    class.len() > 0 || title.len() > 0 || utf8_title.len() > 0
}

/// The answer to [`Question::UnderPointer`]: whether the pointer position, in the
/// coordinates of a window, lies in the window. A window whose size or coordinates
/// are not known does not lie under the pointer.
#[must_use]
pub fn window_contains_root_point(size: Option<(u16, u16)>, position: Option<(i16, i16)>) -> (under:
    bool)
    ensures
        under == (match (size, position) {
            (Some((width, height)), Some((x, y))) => in_rect(
                0,
                0,
                width as int,
                height as int,
                x as int,
                y as int,
            ),
            _ => false,
        }),
{
    match (size, position) {
        (Some((width, height)), Some((x, y))) => contains_point(0, 0, width, height, x, y),
        _ => false,
    }
}

// ---------------------------------------------------------------------------
// The whole search
// ---------------------------------------------------------------------------

/// How far the search for a drop target has come.
#[derive(Clone, Copy, Debug, PartialEq, Eq, Structural)]
pub enum SearchPhase {
    /// Descending; this window lies under the pointer.
    Descending(u32),
    /// Climbing; this window is the next candidate.
    Climbing(u32),
    /// Neither walk found a target; bridges and the active window are left.
    Fallback,
    /// The search is over.
    Done(Option<u32>),
}

/// The phase in which a search starts.
pub open spec fn first_phase(p: Probe) -> SearchPhase {
    SearchPhase::Descending(p.root)
}

/// One step of the search.
pub open spec fn search_step(k: Knowledge, p: Probe, phase: SearchPhase) -> FindingView<
    SearchPhase,
> {
    match phase {
        SearchPhase::Descending(w) => match descend(k, p, w) {
            FindingView::Ask(question) => FindingView::Ask(question),
            FindingView::Failed(message) => FindingView::Failed(message),
            FindingView::Known(Descent::Into(child)) => FindingView::Known(
                SearchPhase::Descending(child),
            ),
            FindingView::Known(Descent::Ends(Some(leaf))) => FindingView::Known(
                SearchPhase::Climbing(leaf),
            ),
            FindingView::Known(Descent::Ends(None)) => FindingView::Known(SearchPhase::Fallback),
        },
        SearchPhase::Climbing(w) => match climb(k, p, w) {
            FindingView::Ask(question) => FindingView::Ask(question),
            FindingView::Failed(message) => FindingView::Failed(message),
            FindingView::Known(Climb::Settled(target)) => FindingView::Known(
                SearchPhase::Done(target),
            ),
            FindingView::Known(Climb::Up(parent)) => FindingView::Known(
                SearchPhase::Climbing(parent),
            ),
            FindingView::Known(Climb::Exhausted) => FindingView::Known(SearchPhase::Fallback),
        },
        SearchPhase::Fallback => match bridge_child_at(k, p) {
            FindingView::Ask(question) => FindingView::Ask(question),
            FindingView::Failed(message) => FindingView::Failed(message),
            FindingView::Known(Some(target)) => FindingView::Known(SearchPhase::Done(Some(target))),
            FindingView::Known(None) => match active_target(k, p) {
                FindingView::Ask(question) => FindingView::Ask(question),
                FindingView::Failed(message) => FindingView::Failed(message),
                FindingView::Known(target) => FindingView::Known(SearchPhase::Done(target)),
            },
        },
        SearchPhase::Done(target) => FindingView::Known(SearchPhase::Done(target)),
    }
}

/// The phase after `steps` steps, or what stopped the search before.
pub open spec fn walk(k: Knowledge, p: Probe, phase: SearchPhase, steps: nat) -> FindingView<
    SearchPhase,
>
    decreases steps,
{
    if steps == 0 {
        FindingView::Known(phase)
    } else {
        match search_step(k, p, phase) {
            FindingView::Known(next) => walk(k, p, next, (steps - 1) as nat),
            other => other,
        }
    }
}

/// One step of the search for the drop target under the pointer.
///
/// The search starts with [`SearchPhase::Descending`] on the root. The caller
/// repeats the step with the phase it returns, and puts the question it names to
/// the server, until the phase is [`SearchPhase::Done`].
pub fn find_xdnd_target(facts: &DesktopFacts, p: &Probe, phase: SearchPhase) -> (found: Finding<
    SearchPhase,
>)
    ensures
        found@ == search_step(facts@, *p, phase),
{
    match phase {
        SearchPhase::Descending(w) => match window_at_step(facts, p, w) {
            Finding::Ask(question) => Finding::Ask(question),
            Finding::Failed(message) => Finding::Failed(message),
            Finding::Known(Descent::Into(child)) => Finding::Known(SearchPhase::Descending(child)),
            Finding::Known(Descent::Ends(Some(leaf))) => Finding::Known(SearchPhase::Climbing(leaf)),
            Finding::Known(Descent::Ends(None)) => Finding::Known(SearchPhase::Fallback),
        },
        SearchPhase::Climbing(w) => match climb_step(facts, p, w) {
            Finding::Ask(question) => Finding::Ask(question),
            Finding::Failed(message) => Finding::Failed(message),
            Finding::Known(Climb::Settled(target)) => Finding::Known(SearchPhase::Done(target)),
            Finding::Known(Climb::Up(parent)) => Finding::Known(SearchPhase::Climbing(parent)),
            Finding::Known(Climb::Exhausted) => Finding::Known(SearchPhase::Fallback),
        },
        SearchPhase::Fallback => match xdnd_bridge_child(facts, p) {
            Finding::Ask(question) => Finding::Ask(question),
            Finding::Failed(message) => Finding::Failed(message),
            Finding::Known(Some(target)) => Finding::Known(SearchPhase::Done(Some(target))),
            Finding::Known(None) => match active_xdnd_target(facts, p) {
                Finding::Ask(question) => Finding::Ask(question),
                Finding::Failed(message) => Finding::Failed(message),
                Finding::Known(target) => Finding::Known(SearchPhase::Done(target)),
            },
        },
        SearchPhase::Done(target) => Finding::Known(SearchPhase::Done(target)),
    }
}

// ---------------------------------------------------------------------------
// Release over a compositor bridge
// ---------------------------------------------------------------------------

/// Where a drop goes that is released over a compositor bridge.
#[derive(Clone, Copy, Debug, PartialEq, Eq, Structural)]
pub enum BridgeRelease {
    /// To a named target that lies under the pointer.
    Resolved(u32),
    /// To a named target that was in touch before and lies under the pointer.
    Reused(u32),
    /// To the bridge itself.
    Bridge(u32),
}

impl BridgeRelease {
    /// The window that the drop goes to.
    pub open spec fn target(self) -> u32 {
        match self {
            BridgeRelease::Resolved(w) => w,
            BridgeRelease::Reused(w) => w,
            BridgeRelease::Bridge(w) => w,
        }
    }

    /// The window that the drop goes to.
    pub fn window(self) -> (w: u32)
        ensures
            w == self.target(),
    {
        match self {
            BridgeRelease::Resolved(w) => w,
            BridgeRelease::Reused(w) => w,
            BridgeRelease::Bridge(w) => w,
        }
    }
}

/// The first of the remembered windows that lies under the pointer, else `bridge`.
pub open spec fn remembered_under_pointer(
    k: Knowledge,
    remembered: Seq<Option<u32>>,
    bridge: u32,
) -> FindingView<BridgeRelease>
    decreases remembered.len(),
{
    if remembered.len() == 0 {
        FindingView::Known(BridgeRelease::Bridge(bridge))
    } else {
        let rest = remembered_under_pointer(k, remembered.drop_first(), bridge);
        match remembered[0] {
            None => rest,
            Some(w) => match under_pointer(k, w) {
                FindingView::Ask(question) => FindingView::Ask(question),
                FindingView::Failed(message) => FindingView::Failed(message),
                FindingView::Known(true) => FindingView::Known(BridgeRelease::Reused(w)),
                FindingView::Known(false) => rest,
            },
        }
    }
}

/// Where a drop goes that is released over a compositor bridge: a named target
/// under the pointer, else a target that was in touch before and lies under the
/// pointer, else the bridge.
pub open spec fn release_target(
    k: Knowledge,
    p: Probe,
    bridge: u32,
    data: Option<u32>,
    accepted: Option<u32>,
    entered: Option<u32>,
) -> FindingView<BridgeRelease> {
    match real_child_at(k, p) {
        FindingView::Ask(question) => FindingView::Ask(question),
        FindingView::Failed(message) => FindingView::Failed(message),
        FindingView::Known(Some(target)) => FindingView::Known(BridgeRelease::Resolved(target)),
        FindingView::Known(None) => remembered_under_pointer(
            k,
            seq![data, accepted, entered],
            bridge,
        ),
    }
}

fn find_remembered(facts: &DesktopFacts, remembered: &Vec<Option<u32>>, bridge: u32) -> (found:
    Finding<BridgeRelease>)
    ensures
        found@ == remembered_under_pointer(facts@, remembered@, bridge),
{
    assert(remembered@.skip(0) == remembered@);
    for i in 0..remembered.len()
        invariant
            remembered_under_pointer(facts@, remembered@, bridge) == remembered_under_pointer(
                facts@,
                remembered@.skip(i as int),
                bridge,
            ),
    {
        assert(remembered@.skip(i as int).drop_first() == remembered@.skip(i + 1));
        if let Some(w) = remembered[i] {
            match find_under_pointer(facts, w) {
                Finding::Ask(question) => {
                    return Finding::Ask(question);
                },
                Finding::Failed(message) => {
                    return Finding::Failed(message);
                },
                Finding::Known(true) => {
                    return Finding::Known(BridgeRelease::Reused(w));
                },
                Finding::Known(false) => {},
            }
        }
    }
    Finding::Known(BridgeRelease::Bridge(bridge))
}

/// Where a drop goes that is released over the compositor bridge `bridge`.
///
/// `data`, `accepted` and `entered` are the last named targets that asked for
/// data, accepted the drag and were entered.
pub fn bridge_release_target(
    facts: &DesktopFacts,
    p: &Probe,
    bridge: u32,
    data: Option<u32>,
    accepted: Option<u32>,
    entered: Option<u32>,
) -> (found: Finding<BridgeRelease>)
    ensures
        found@ == release_target(facts@, *p, bridge, data, accepted, entered),
{
    match real_xdnd_child_at(facts, p) {
        Finding::Ask(question) => Finding::Ask(question),
        Finding::Failed(message) => Finding::Failed(message),
        Finding::Known(Some(target)) => Finding::Known(BridgeRelease::Resolved(target)),
        Finding::Known(None) => {
            let remembered: Vec<Option<u32>> = vec![data, accepted, entered];
            assert(remembered@ == seq![data, accepted, entered]);
            find_remembered(facts, &remembered, bridge)
        },
    }
}

} // verus!
