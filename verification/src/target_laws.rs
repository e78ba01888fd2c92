//! What holds of every search for a drop target.

use vstd::prelude::*;

use crate::desktop::{FindingView, Knowledge, Question, TreeNode, NO_WINDOW};
use crate::target::{
    active_target, anonymous_bridge, aware, bridge_child, bridge_child_at, climb, descend, first_phase, hit_child,
    real_child, real_child_at, real_target, release_target, remembered_under_pointer, search_step, stand_in,
    tree, walk, BridgeRelease, Climb, Descent, Probe, SearchPhase,
};

verus! {

/// Whether a finding is a question that is still open in `k`.
pub open spec fn asks_something_new<T>(k: Knowledge, found: FindingView<T>) -> bool {
    found matches FindingView::Ask(question) ==> !k.knows(question)
}

/// Whether a finding, once it is no question, is kept.
pub open spec fn kept<T>(early: FindingView<T>, late: FindingView<T>) -> bool {
    !(early is Ask) ==> late == early
}

proof fn hit_child_laws(k: Knowledge, more: Knowledge, p: Probe, children: Seq<u32>, n: nat)
    requires
        k.within(more),
        n <= children.len(),
    ensures
        asks_something_new(k, hit_child(k, p, children, n)),
        kept(hit_child(k, p, children, n), hit_child(more, p, children, n)),
    decreases n,
{
    if n > 0 {
        hit_child_laws(k, more, p, children, (n - 1) as nat);
    }
}

proof fn real_child_laws(k: Knowledge, more: Knowledge, p: Probe, children: Seq<u32>, n: nat)
    requires
        k.within(more),
        n <= children.len(),
    ensures
        asks_something_new(k, real_child(k, p, children, n)),
        kept(real_child(k, p, children, n), real_child(more, p, children, n)),
    decreases n,
{
    if n > 0 {
        real_child_laws(k, more, p, children, (n - 1) as nat);
    }
}

proof fn bridge_child_laws(k: Knowledge, more: Knowledge, p: Probe, children: Seq<u32>, n: nat)
    requires
        k.within(more),
        n <= children.len(),
    ensures
        asks_something_new(k, bridge_child(k, p, children, n)),
        kept(bridge_child(k, p, children, n), bridge_child(more, p, children, n)),
    decreases n,
{
    if n > 0 {
        bridge_child_laws(k, more, p, children, (n - 1) as nat);
    }
}

proof fn toplevel_laws(k: Knowledge, more: Knowledge, p: Probe)
    requires
        k.within(more),
    ensures
        asks_something_new(k, real_child_at(k, p)),
        kept(real_child_at(k, p), real_child_at(more, p)),
        asks_something_new(k, bridge_child_at(k, p)),
        kept(bridge_child_at(k, p), bridge_child_at(more, p)),
        asks_something_new(k, active_target(k, p)),
        kept(active_target(k, p), active_target(more, p)),
{
    if let FindingView::Known(node) = tree(k, p.root) {
        real_child_laws(k, more, p, node.children, node.children.len());
        bridge_child_laws(k, more, p, node.children, node.children.len());
    }
}

/// A search never asks the server the same question twice: a question that a
/// step names has no known reply.
pub proof fn search_asks_each_question_once(k: Knowledge, p: Probe, phase: SearchPhase)
    ensures
        asks_something_new(k, search_step(k, p, phase)),
{
    toplevel_laws(k, k, p);
    if let SearchPhase::Descending(w) = phase {
        if let FindingView::Known(node) = tree(k, w) {
            hit_child_laws(k, k, p, node.children, node.children.len());
        }
    }
}

/// Learning more never changes a step that needed no further reply.
pub proof fn search_keeps_what_it_found(
    k: Knowledge,
    more: Knowledge,
    p: Probe,
    phase: SearchPhase,
)
    requires
        k.within(more),
    ensures
        kept(search_step(k, p, phase), search_step(more, p, phase)),
{
    toplevel_laws(k, more, p);
    if let SearchPhase::Descending(w) = phase {
        if let FindingView::Known(node) = tree(k, w) {
            hit_child_laws(k, more, p, node.children, node.children.len());
        }
    }
}

/// A search that was stepped while the replies came in gives the result that
/// one would get with all the replies at hand.
pub proof fn walk_keeps_what_it_found(
    k: Knowledge,
    more: Knowledge,
    p: Probe,
    phase: SearchPhase,
    steps: nat,
)
    requires
        k.within(more),
    ensures
        kept(walk(k, p, phase, steps), walk(more, p, phase, steps)),
    decreases steps,
{
    if steps > 0 {
        search_keeps_what_it_found(k, more, p, phase);
        if let FindingView::Known(next) = search_step(k, p, phase) {
            walk_keeps_what_it_found(k, more, p, next, (steps - 1) as nat);
        }
    }
}

/// The release target asks only open questions and keeps what it found.
pub proof fn release_target_is_stable(
    k: Knowledge,
    more: Knowledge,
    p: Probe,
    bridge: u32,
    data: Option<u32>,
    accepted: Option<u32>,
    entered: Option<u32>,
)
    requires
        k.within(more),
    ensures
        asks_something_new(k, release_target(k, p, bridge, data, accepted, entered)),
        kept(
            release_target(k, p, bridge, data, accepted, entered),
            release_target(more, p, bridge, data, accepted, entered),
        ),
{
    toplevel_laws(k, more, p);
    remembered_laws(k, more, seq![data, accepted, entered], bridge);
}

proof fn remembered_laws(k: Knowledge, more: Knowledge, remembered: Seq<Option<u32>>, bridge: u32)
    requires
        k.within(more),
    ensures
        asks_something_new(k, remembered_under_pointer(k, remembered, bridge)),
        kept(
            remembered_under_pointer(k, remembered, bridge),
            remembered_under_pointer(more, remembered, bridge),
        ),
    decreases remembered.len(),
{
    if remembered.len() > 0 {
        remembered_laws(k, more, remembered.drop_first(), bridge);
    }
}

/// Whether `target` is what a window other than the origin, known to take drops,
/// gives as its stand-in.
pub open spec fn stands_in_for_a_drop_window(k: Knowledge, p: Probe, target: u32) -> bool {
    exists|w: u32|
        #![trigger k.surely_aware(w)]
        p.origin != Some(w) && k.surely_aware(w) && stand_in(k, w) == FindingView::Known(target)
}

proof fn scans_find_drop_windows(k: Knowledge, p: Probe, children: Seq<u32>, n: nat)
    requires
        n <= children.len(),
    ensures
        real_child(k, p, children, n) matches FindingView::Known(Some(t))
            ==> stands_in_for_a_drop_window(k, p, t),
        bridge_child(k, p, children, n) matches FindingView::Known(Some(t))
            ==> stands_in_for_a_drop_window(k, p, t),
    decreases n,
{
    if n > 0 {
        scans_find_drop_windows(k, p, children, (n - 1) as nat);
        let w = children[n - 1];
        assert(k.surely_aware(w) || !k.surely_aware(w));
    }
}

/// A drag never targets the editor it came from, nor a window that does not take
/// drops: a search ends without a target, or with the stand-in of a window that
/// takes drops and is not the origin.
pub proof fn search_never_targets_the_origin(k: Knowledge, p: Probe, phase: SearchPhase)
    requires
        !(phase is Done),
    ensures
        search_step(k, p, phase) matches FindingView::Known(SearchPhase::Done(Some(target)))
            ==> stands_in_for_a_drop_window(k, p, target),
{
    if let FindingView::Known(node) = tree(k, p.root) {
        scans_find_drop_windows(k, p, node.children, node.children.len());
    }
    if let SearchPhase::Climbing(w) = phase {
        assert(aware(k, w) == FindingView::Known(true) ==> k.surely_aware(w));
    }
    if let Some(Ok(Some(w))) = k.active {
        assert(aware(k, w) == FindingView::Known(true) ==> k.surely_aware(w));
    }
}

/// Releasing the climb on the origin cancels the search.
pub proof fn climb_on_the_origin_finds_nothing(k: Knowledge, p: Probe, origin: u32)
    requires
        p.origin == Some(origin),
    ensures
        search_step(k, p, SearchPhase::Climbing(origin)) == FindingView::Known(
            SearchPhase::Done(None),
        ),
{
}

/// Whether a child can be hit: it is not passed over and lies under the pointer.
pub open spec fn hittable(k: Knowledge, p: Probe, w: u32) -> bool {
    w != p.source && p.origin != Some(w) && k.under[w]
}

/// With every reply at hand the descent enters the topmost window under the
/// pointer, passing over the source and the origin.
pub proof fn descent_enters_the_topmost_window(k: Knowledge, p: Probe, children: Seq<u32>)
    requires
        k.complete(),
    ensures
        match hit_child(k, p, children, children.len()) {
            FindingView::Known(Some(w)) => exists|i: int|
                0 <= i < children.len() && #[trigger] children[i] == w && hittable(k, p, w) && (
                forall|j: int| i < j < children.len() ==> !hittable(k, p, #[trigger] children[j])),
            FindingView::Known(None) => forall|j: int|
                0 <= j < children.len() ==> !hittable(k, p, #[trigger] children[j]),
            _ => false,
        },
{
    topmost_of_prefix(k, p, children, children.len());
}

proof fn topmost_of_prefix(k: Knowledge, p: Probe, children: Seq<u32>, n: nat)
    requires
        k.complete(),
        n <= children.len(),
    ensures
        match hit_child(k, p, children, n) {
            FindingView::Known(Some(w)) => exists|i: int|
                0 <= i < n && #[trigger] children[i] == w && hittable(k, p, w) && (forall|j: int|
                    i < j < n ==> !hittable(k, p, #[trigger] children[j])),
            FindingView::Known(None) => forall|j: int|
                0 <= j < n ==> !hittable(k, p, #[trigger] children[j]),
            _ => false,
        },
    decreases n,
{
    if n > 0 {
        topmost_of_prefix(k, p, children, (n - 1) as nat);
        let w = children[n - 1];
        assert(k.knows(Question::UnderPointer(w)));
    }
}

/// Whether a window is a named drop target under the pointer that may be chosen.
pub open spec fn named_hit(k: Knowledge, p: Probe, w: u32) -> bool {
    &&& w != p.source
    &&& p.origin != Some(w)
    &&& k.aware[w] == Ok::<bool, Seq<char>>(true)
    &&& k.named[w]
    &&& k.under[w]
}

/// Whether a window is a compositor bridge under the pointer that may be chosen.
pub open spec fn bridge_hit(k: Knowledge, p: Probe, w: u32) -> bool {
    &&& w != p.source
    &&& p.origin != Some(w)
    &&& k.aware[w] == Ok::<bool, Seq<char>>(true)
    &&& !k.named[w]
    &&& k.under[w]
}

/// Whether a result is that of choosing a window: its proxy where it has one, else the
/// window, or the failure to read the proxy.
pub open spec fn chosen(k: Knowledge, w: u32, found: FindingView<Option<u32>>) -> bool {
    match k.proxies[w] {
        Ok(Some(proxy)) => found == FindingView::Known(Some(proxy)),
        Ok(None) => found == FindingView::Known(Some(w)),
        Err(message) => found == FindingView::<Option<u32>>::Failed(message),
    }
}

/// With every reply at hand the named drop target that is chosen among windows is the
/// topmost one under the pointer, and none is chosen only where there is none.
pub proof fn topmost_named_window_is_chosen(k: Knowledge, p: Probe, children: Seq<u32>)
    requires
        k.complete(),
    ensures
        forall|i: int|
            0 <= i < children.len() && named_hit(k, p, #[trigger] children[i]) && (forall|j: int|
                i < j < children.len() ==> !named_hit(k, p, #[trigger] children[j])) ==> chosen(
                k,
                children[i],
                real_child(k, p, children, children.len()),
            ),
        (forall|j: int| 0 <= j < children.len() ==> !named_hit(k, p, #[trigger] children[j]))
            ==> real_child(k, p, children, children.len()) == FindingView::Known(None::<u32>),
        real_child(k, p, children, children.len()) matches FindingView::Known(Some(t)) ==> exists|
            i: int,
        |
            0 <= i < children.len() && named_hit(k, p, #[trigger] children[i]) && chosen(
                k,
                children[i],
                FindingView::Known(Some(t)),
            ) && (forall|j: int|
                i < j < children.len() ==> !named_hit(k, p, #[trigger] children[j])),
{
    topmost_named_of_prefix(k, p, children, children.len());
}

proof fn topmost_named_of_prefix(k: Knowledge, p: Probe, children: Seq<u32>, n: nat)
    requires
        k.complete(),
        n <= children.len(),
    ensures
        ({
            let found = real_child(k, p, children, n);
            ||| found == FindingView::Known(None::<u32>) && forall|j: int|
                0 <= j < n ==> !named_hit(k, p, #[trigger] children[j])
            ||| exists|i: int|
                0 <= i < n && named_hit(k, p, #[trigger] children[i]) && chosen(
                    k,
                    children[i],
                    found,
                ) && (forall|j: int| i < j < n ==> !named_hit(k, p, #[trigger] children[j]))
        }),
    decreases n,
{
    if n > 0 {
        topmost_named_of_prefix(k, p, children, (n - 1) as nat);
        let w = children[n - 1];
        assert(k.knows(Question::UnderPointer(w)));
        assert(k.knows(Question::Aware(w)));
        assert(k.knows(Question::Identity(w)));
        assert(k.knows(Question::Proxy(w)));
        if named_hit(k, p, w) {
            assert(chosen(k, children[n - 1], real_child(k, p, children, n)));
        }
    }
}

/// With every reply at hand the compositor bridge that is chosen among windows is the
/// topmost one under the pointer, and none is chosen only where there is none.
pub proof fn topmost_bridge_is_chosen(k: Knowledge, p: Probe, children: Seq<u32>)
    requires
        k.complete(),
    ensures
        forall|i: int|
            0 <= i < children.len() && bridge_hit(k, p, #[trigger] children[i]) && (forall|j: int|
                i < j < children.len() ==> !bridge_hit(k, p, #[trigger] children[j])) ==> chosen(
                k,
                children[i],
                bridge_child(k, p, children, children.len()),
            ),
        (forall|j: int| 0 <= j < children.len() ==> !bridge_hit(k, p, #[trigger] children[j]))
            ==> bridge_child(k, p, children, children.len()) == FindingView::Known(None::<u32>),
        bridge_child(k, p, children, children.len()) matches FindingView::Known(Some(t)) ==> exists|
            i: int,
        |
            0 <= i < children.len() && bridge_hit(k, p, #[trigger] children[i]) && chosen(
                k,
                children[i],
                FindingView::Known(Some(t)),
            ) && (forall|j: int|
                i < j < children.len() ==> !bridge_hit(k, p, #[trigger] children[j])),
{
    topmost_bridge_of_prefix(k, p, children, children.len());
}

proof fn topmost_bridge_of_prefix(k: Knowledge, p: Probe, children: Seq<u32>, n: nat)
    requires
        k.complete(),
        n <= children.len(),
    ensures
        ({
            let found = bridge_child(k, p, children, n);
            ||| found == FindingView::Known(None::<u32>) && forall|j: int|
                0 <= j < n ==> !bridge_hit(k, p, #[trigger] children[j])
            ||| exists|i: int|
                0 <= i < n && bridge_hit(k, p, #[trigger] children[i]) && chosen(
                    k,
                    children[i],
                    found,
                ) && (forall|j: int| i < j < n ==> !bridge_hit(k, p, #[trigger] children[j]))
        }),
    decreases n,
{
    if n > 0 {
        topmost_bridge_of_prefix(k, p, children, (n - 1) as nat);
        let w = children[n - 1];
        assert(k.knows(Question::UnderPointer(w)));
        assert(k.knows(Question::Aware(w)));
        assert(k.knows(Question::Identity(w)));
        assert(k.knows(Question::Proxy(w)));
        if bridge_hit(k, p, w) {
            assert(chosen(k, children[n - 1], bridge_child(k, p, children, n)));
        }
    }
}

/// A window that takes drops is a named drop target or a compositor bridge, and one that
/// does not, or whose answer failed, is neither.
pub proof fn drop_windows_are_named_or_bridges(k: Knowledge, w: u32)
    requires
        k.complete(),
    ensures
        real_target(k, w) == FindingView::Known(
            k.aware[w] == Ok::<bool, Seq<char>>(true) && k.named[w],
        ),
        anonymous_bridge(k, w) == FindingView::Known(
            k.aware[w] == Ok::<bool, Seq<char>>(true) && !k.named[w],
        ),
{
    all_known(k, w);
}

/// Whether the topmost of some windows that satisfy a condition is the one at index `i`.
pub open spec fn topmost(children: Seq<u32>, fits: spec_fn(u32) -> bool, i: int) -> bool {
    &&& 0 <= i < children.len()
    &&& fits(children[i])
    &&& forall|j: int| i < j < children.len() ==> !fits(#[trigger] children[j])
}

/// Whether a search is over with a window, as [`chosen`] says.
pub open spec fn ends_with(k: Knowledge, w: u32, found: FindingView<SearchPhase>) -> bool {
    match k.proxies[w] {
        Ok(Some(proxy)) => found == FindingView::Known(SearchPhase::Done(Some(proxy))),
        Ok(None) => found == FindingView::Known(SearchPhase::Done(Some(w))),
        Err(message) => found == FindingView::<SearchPhase>::Failed(message),
    }
}

proof fn all_known(k: Knowledge, w: u32)
    requires
        k.complete(),
    ensures
        k.trees.contains_key(w),
        k.aware.contains_key(w),
        k.named.contains_key(w),
        k.under.contains_key(w),
        k.proxies.contains_key(w),
        k.active is Some,
{
    assert(k.knows(Question::Tree(w)));
    assert(k.knows(Question::Aware(w)));
    assert(k.knows(Question::Identity(w)));
    assert(k.knows(Question::UnderPointer(w)));
    assert(k.knows(Question::Proxy(w)));
    assert(k.knows(Question::ActiveWindow));
}

/// The descent goes into the topmost child under the pointer. Without one, it ends: the
/// climb starts here, or, where this is the source or the origin, nothing is climbed.
pub proof fn descent_goes_to_the_window_under_the_pointer(
    k: Knowledge,
    p: Probe,
    w: u32,
    node: TreeNode,
    i: int,
)
    requires
        k.complete(),
        k.trees[w] == Ok::<TreeNode, Seq<char>>(node),
    ensures
        topmost(node.children, |c: u32| hittable(k, p, c), i) && node.children[i] != w
            ==> search_step(k, p, SearchPhase::Descending(w)) == FindingView::Known(
            SearchPhase::Descending(node.children[i]),
        ),
        (forall|j: int| 0 <= j < node.children.len() ==> !hittable(k, p, #[trigger]
            node.children[j])) ==> search_step(k, p, SearchPhase::Descending(w))
            == FindingView::Known(
            if w == p.source || p.origin == Some(w) {
                SearchPhase::Fallback
            } else {
                SearchPhase::Climbing(w)
            },
        ),
{
    all_known(k, w);
    descent_enters_the_topmost_window(k, p, node.children);
    let fits = |c: u32| hittable(k, p, c);
    if topmost(node.children, fits, i) {
        assert(fits(node.children[i]));
        if let FindingView::Known(Some(c)) = hit_child(k, p, node.children, node.children.len()) {
            let h = choose|h: int|
                0 <= h < node.children.len() && #[trigger] node.children[h] == c && hittable(
                    k,
                    p,
                    c,
                ) && (forall|j: int|
                    h < j < node.children.len() ==> !hittable(k, p, #[trigger] node.children[j]));
            if h < i {
                assert(!hittable(k, p, node.children[i]));
            }
            if i < h {
                assert(!fits(node.children[h]));
            }
        }
    }
}

/// The climb takes the nearest window that takes drops: a window that takes none gives way
/// to its parent, and the climb ends without a target at the top. A compositor bridge gives
/// way to the topmost named drop target under the pointer, where there is one.
pub proof fn climb_takes_the_nearest_drop_window(
    k: Knowledge,
    p: Probe,
    w: u32,
    node: TreeNode,
    root: TreeNode,
    i: int,
)
    requires
        k.complete(),
        p.origin != Some(w),
        k.trees[w] == Ok::<TreeNode, Seq<char>>(node),
        k.trees[p.root] == Ok::<TreeNode, Seq<char>>(root),
    ensures
        k.aware[w] == Ok::<bool, Seq<char>>(false) ==> search_step(k, p, SearchPhase::Climbing(w))
            == FindingView::Known(
            if node.parent == 0 {
                SearchPhase::Fallback
            } else {
                SearchPhase::Climbing(node.parent)
            },
        ),
        k.aware[w] == Ok::<bool, Seq<char>>(true) && k.named[w] ==> ends_with(
            k,
            w,
            search_step(k, p, SearchPhase::Climbing(w)),
        ),
        k.aware[w] == Ok::<bool, Seq<char>>(true) && !k.named[w] && topmost(
            root.children,
            |c: u32| named_hit(k, p, c),
            i,
        ) ==> ends_with(k, root.children[i], search_step(k, p, SearchPhase::Climbing(w))),
        k.aware[w] == Ok::<bool, Seq<char>>(true) && !k.named[w] && (forall|j: int|
            0 <= j < root.children.len() ==> !named_hit(k, p, #[trigger] root.children[j]))
            ==> ends_with(k, w, search_step(k, p, SearchPhase::Climbing(w))),
        k.aware[w] matches Err(message) ==> search_step(k, p, SearchPhase::Climbing(w))
            == FindingView::<SearchPhase>::Failed(message),
{
    all_known(k, w);
    all_known(k, p.root);
    topmost_named_window_is_chosen(k, p, root.children);
    let fits = |c: u32| named_hit(k, p, c);
    if topmost(root.children, fits, i) {
        assert(fits(root.children[i]));
        assert forall|j: int| i < j < root.children.len() implies !named_hit(k, p, #[trigger]
            root.children[j]) by {
            assert(!fits(root.children[j]));
        }
        all_known(k, root.children[i]);
    }
}

/// When neither walk found a target, the topmost compositor bridge under the pointer is
/// taken; without one, the active window, where it takes drops and is not the origin.
pub proof fn bridges_come_before_the_active_window(
    k: Knowledge,
    p: Probe,
    root: TreeNode,
    i: int,
)
    requires
        k.complete(),
        k.trees[p.root] == Ok::<TreeNode, Seq<char>>(root),
    ensures
        topmost(root.children, |c: u32| bridge_hit(k, p, c), i) ==> ends_with(
            k,
            root.children[i],
            search_step(k, p, SearchPhase::Fallback),
        ),
        (forall|j: int|
            0 <= j < root.children.len() ==> !bridge_hit(k, p, #[trigger] root.children[j])) ==> (
        match k.active->0 {
            Ok(Some(w)) => match k.aware[w] {
                Ok(true) if p.origin != Some(w) => ends_with(
                    k,
                    w,
                    search_step(k, p, SearchPhase::Fallback),
                ),
                Ok(_) => search_step(k, p, SearchPhase::Fallback) == FindingView::Known(
                    SearchPhase::Done(None),
                ),
                Err(message) => search_step(k, p, SearchPhase::Fallback)
                    == FindingView::<SearchPhase>::Failed(message),
            },
            Ok(None) => search_step(k, p, SearchPhase::Fallback) == FindingView::Known(
                SearchPhase::Done(None),
            ),
            Err(message) => search_step(k, p, SearchPhase::Fallback)
                == FindingView::<SearchPhase>::Failed(message),
        }),
{
    all_known(k, p.root);
    topmost_bridge_is_chosen(k, p, root.children);
    let fits = |c: u32| bridge_hit(k, p, c);
    if topmost(root.children, fits, i) {
        assert(fits(root.children[i]));
        assert forall|j: int| i < j < root.children.len() implies !bridge_hit(k, p, #[trigger]
            root.children[j]) by {
            assert(!fits(root.children[j]));
        }
        all_known(k, root.children[i]);
    }
    if let Ok(Some(w)) = k.active->0 {
        all_known(k, w);
    }
}

/// A drop that is released over a compositor bridge goes to the topmost named drop target
/// under the pointer. Without one, it goes to the window that asked for data, else to the
/// one that accepted, else to the one that was entered, as far as they lie under the
/// pointer, and else to the bridge.
pub proof fn release_over_a_bridge_goes_to_the_closest_match(
    k: Knowledge,
    p: Probe,
    bridge: u32,
    data: Option<u32>,
    accepted: Option<u32>,
    entered: Option<u32>,
    root: TreeNode,
    i: int,
)
    requires
        k.complete(),
        k.trees[p.root] == Ok::<TreeNode, Seq<char>>(root),
    ensures
        ({
            let found = release_target(k, p, bridge, data, accepted, entered);
            let none_named = forall|j: int|
                0 <= j < root.children.len() ==> !named_hit(k, p, #[trigger] root.children[j]);
            let by_data = data is Some && k.under[data->0];
            let by_accepted = accepted is Some && k.under[accepted->0];
            let by_entered = entered is Some && k.under[entered->0];
            &&& topmost(root.children, |c: u32| named_hit(k, p, c), i) ==> (match k.proxies[root.children[i]] {
                Ok(Some(proxy)) => found == FindingView::Known(BridgeRelease::Resolved(proxy)),
                Ok(None) => found == FindingView::Known(BridgeRelease::Resolved(root.children[i])),
                Err(message) => found == FindingView::<BridgeRelease>::Failed(message),
            })
            &&& none_named && by_data ==> found == FindingView::Known(BridgeRelease::Reused(data->0))
            &&& none_named && !by_data && by_accepted ==> found == FindingView::Known(
                BridgeRelease::Reused(accepted->0),
            )
            &&& none_named && !by_data && !by_accepted && by_entered ==> found
                == FindingView::Known(BridgeRelease::Reused(entered->0))
            &&& none_named && !by_data && !by_accepted && !by_entered ==> found
                == FindingView::Known(BridgeRelease::Bridge(bridge))
        }),
{
    all_known(k, p.root);
    topmost_named_window_is_chosen(k, p, root.children);
    let fits = |c: u32| named_hit(k, p, c);
    if topmost(root.children, fits, i) {
        assert(fits(root.children[i]));
        assert forall|j: int| i < j < root.children.len() implies !named_hit(k, p, #[trigger]
            root.children[j]) by {
            assert(!fits(root.children[j]));
        }
        all_known(k, root.children[i]);
    }
    if data is Some {
        all_known(k, data->0);
    }
    if accepted is Some {
        all_known(k, accepted->0);
    }
    if entered is Some {
        all_known(k, entered->0);
    }
    reveal_with_fuel(remembered_under_pointer, 4);
    let all = seq![data, accepted, entered];
    assert(all.drop_first() =~= seq![accepted, entered]);
    assert(all.drop_first().drop_first() =~= seq![entered]);
    assert(all.drop_first().drop_first().drop_first() =~= seq![]);
}

/// A window tree without cycles: every window has a depth, children lie deeper
/// than their parent, and no window lies deeper than `deepest`.
pub open spec fn rooted(k: Knowledge, depth: spec_fn(u32) -> nat, deepest: nat) -> bool {
    &&& forall|w: u32| #[trigger] depth(w) <= deepest
    &&& forall|w: u32, node: TreeNode, i: int|
        #![trigger tree(k, w), node.children[i]]
        tree(k, w) == FindingView::Known(node) && 0 <= i < node.children.len() ==> depth(
            node.children[i],
        ) > depth(w)
    &&& forall|w: u32, node: TreeNode|
        #![trigger tree(k, w), node.parent]
        tree(k, w) == FindingView::Known(node) && node.parent != NO_WINDOW ==> depth(node.parent)
            < depth(w)
}

/// How many steps a search can still take in a phase.
pub open spec fn steps_left(phase: SearchPhase, depth: spec_fn(u32) -> nat, deepest: nat) -> nat {
    match phase {
        SearchPhase::Descending(w) => (2 * deepest + 4 - depth(w)) as nat,
        SearchPhase::Climbing(w) => depth(w) + 2,
        SearchPhase::Fallback => 1,
        SearchPhase::Done(_) => 0,
    }
}

proof fn hit_child_is_a_child(k: Knowledge, p: Probe, children: Seq<u32>, n: nat)
    requires
        n <= children.len(),
    ensures
        hit_child(k, p, children, n) matches FindingView::Known(Some(w)) ==> exists|i: int|
            0 <= i < n && #[trigger] children[i] == w,
    decreases n,
{
    if n > 0 {
        hit_child_is_a_child(k, p, children, (n - 1) as nat);
        assert(children[n - 1] == children[n - 1]);
    }
}

/// In a window tree without cycles every step brings the search closer to its end.
pub proof fn search_step_makes_progress(
    k: Knowledge,
    p: Probe,
    phase: SearchPhase,
    depth: spec_fn(u32) -> nat,
    deepest: nat,
)
    requires
        rooted(k, depth, deepest),
        !(phase is Done),
    ensures
        search_step(k, p, phase) matches FindingView::Known(next) ==> steps_left(
            next,
            depth,
            deepest,
        ) < steps_left(phase, depth, deepest),
{
    match phase {
        SearchPhase::Descending(w) => {
            assert(depth(w) <= deepest);
            if let FindingView::Known(node) = tree(k, w) {
                hit_child_is_a_child(k, p, node.children, node.children.len());
                match descend(k, p, w) {
                    FindingView::Known(Descent::Into(child)) => {
                        let i = choose|i: int|
                            0 <= i < node.children.len() && #[trigger] node.children[i] == child;
                        assert(depth(node.children[i]) > depth(w));
                        assert(depth(child) <= deepest);
                    },
                    FindingView::Known(Descent::Ends(Some(leaf))) => {
                        assert(depth(leaf) <= deepest);
                    },
                    _ => {},
                }
            }
        },
        SearchPhase::Climbing(w) => {
            if let FindingView::Known(Climb::Up(parent)) = climb(k, p, w) {
                if let FindingView::Known(node) = tree(k, w) {
                    assert(node.parent == parent);
                }
            }
        },
        _ => {},
    }
}

/// Every search over a finite window tree ends: after some number of steps it is
/// done, has failed, or waits for a reply.
pub proof fn search_ends(
    k: Knowledge,
    p: Probe,
    phase: SearchPhase,
    depth: spec_fn(u32) -> nat,
    deepest: nat,
)
    requires
        rooted(k, depth, deepest),
    ensures
        exists|steps: nat|
            #![trigger walk(k, p, phase, steps)]
            steps <= steps_left(phase, depth, deepest) + 1 && (walk(k, p, phase, steps) matches
                FindingView::Known(end) ==> end is Done),
    decreases steps_left(phase, depth, deepest),
{
    if phase is Done {
        assert(walk(k, p, phase, 0) == FindingView::Known(phase));
    } else {
        match search_step(k, p, phase) {
            FindingView::Known(next) => {
                search_step_makes_progress(k, p, phase, depth, deepest);
                search_ends(k, p, next, depth, deepest);
                let steps = choose|steps: nat|
                    #![trigger walk(k, p, next, steps)]
                    steps <= steps_left(next, depth, deepest) + 1 && (walk(k, p, next, steps)
                        matches FindingView::Known(end) ==> end is Done);
                assert(walk(k, p, phase, steps + 1) == walk(k, p, next, steps));
            },
            _ => {
                assert(walk(k, p, phase, 1) == search_step(k, p, phase));
            },
        }
    }
}

proof fn complete_knowledge_answers(k: Knowledge, p: Probe, phase: SearchPhase)
    requires
        k.complete(),
    ensures
        !(search_step(k, p, phase) is Ask),
{
    search_asks_each_question_once(k, p, phase);
}

proof fn complete_walk_answers(k: Knowledge, p: Probe, phase: SearchPhase, steps: nat)
    requires
        k.complete(),
    ensures
        !(walk(k, p, phase, steps) is Ask),
    decreases steps,
{
    if steps > 0 {
        complete_knowledge_answers(k, p, phase);
        if let FindingView::Known(next) = search_step(k, p, phase) {
            complete_walk_answers(k, p, next, (steps - 1) as nat);
        }
    }
}

/// With every reply at hand and a tree without cycles, the search from the root
/// gives a result or the server's failure.
pub proof fn search_from_the_root_gives_a_result(
    k: Knowledge,
    p: Probe,
    depth: spec_fn(u32) -> nat,
    deepest: nat,
)
    requires
        k.complete(),
        rooted(k, depth, deepest),
    ensures
        exists|steps: nat|
            match #[trigger] walk(k, p, first_phase(p), steps) {
                FindingView::Known(end) => end is Done,
                FindingView::Failed(_) => true,
                FindingView::Ask(_) => false,
            },
{
    search_ends(k, p, first_phase(p), depth, deepest);
    let steps = choose|steps: nat|
        #![trigger walk(k, p, first_phase(p), steps)]
        steps <= steps_left(first_phase(p), depth, deepest) + 1 && (walk(
            k,
            p,
            first_phase(p),
            steps,
        ) matches FindingView::Known(end) ==> end is Done);
    complete_walk_answers(k, p, first_phase(p), steps);
}

/// A named window under the pointer wins over a compositor bridge in its place.
pub proof fn named_window_wins_over_a_bridge(k: Knowledge, p: Probe, bridge: u32, target: u32)
    requires
        p.origin != Some(bridge),
        aware(k, bridge) == FindingView::Known(true),
        k.named.contains_key(bridge),
        !k.named[bridge],
        real_child_at(k, p) == FindingView::Known(Some(target)),
    ensures
        search_step(k, p, SearchPhase::Climbing(bridge)) == FindingView::Known(
            SearchPhase::Done(Some(target)),
        ),
        forall|data: Option<u32>, accepted: Option<u32>, entered: Option<u32>|
            #[trigger] release_target(k, p, bridge, data, accepted, entered)
                == FindingView::Known(BridgeRelease::Resolved(target)),
{
}

} // verus!
