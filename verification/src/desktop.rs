//! What is known of the X11 window tree while one pointer position is looked at.
//!
//! The display server is asked one question at a time. A [`DesktopFacts`]
//! collects the replies, and the searches of this crate are evaluated over it:
//! each either gives its result or names the next question that has to be put
//! to the server.

use std::collections::HashMap;

use vstd::prelude::*;

verus! {

broadcast use vstd::std_specs::hash::group_hash_axioms;

/// The window id that stands for "no window".
pub const NO_WINDOW: u32 = 0;

/// A question to the display server about one pointer position.
#[derive(Clone, Copy, Debug, PartialEq, Eq, Structural)]
pub enum Question {
    /// Parent and children of a window, children from the bottom of the stack to the top.
    Tree(u32),
    /// Whether a window carries the `XdndAware` property.
    Aware(u32),
    /// Whether a window has a class or a title.
    Identity(u32),
    /// Whether a window lies under the pointer position.
    UnderPointer(u32),
    /// The window named by the `XdndProxy` property of a window.
    Proxy(u32),
    /// The window named by `_NET_ACTIVE_WINDOW` on the root.
    ActiveWindow,
}

/// Parent and children of a window.
#[derive(Debug)]
pub struct TreeReply {
    /// Parent window, or [`NO_WINDOW`].
    pub parent: u32,
    /// Children, from the bottom of the stack to the top.
    pub children: Vec<u32>,
}

/// Parent and children of a window, as mathematical values.
pub struct TreeNode {
    pub parent: u32,
    pub children: Seq<u32>,
}

impl View for TreeReply {
    type V = TreeNode;

    open spec fn view(&self) -> TreeNode {
        TreeNode { parent: self.parent, children: self.children@ }
    }
}

/// The replies known so far, as mathematical values.
pub struct Knowledge {
    pub trees: Map<u32, Result<TreeNode, Seq<char>>>,
    pub aware: Map<u32, Result<bool, Seq<char>>>,
    pub named: Map<u32, bool>,
    pub under: Map<u32, bool>,
    pub proxies: Map<u32, Result<Option<u32>, Seq<char>>>,
    pub active: Option<Result<Option<u32>, Seq<char>>>,
}

impl Knowledge {
    /// Whether the reply to a question is known.
    pub open spec fn knows(self, question: Question) -> bool {
        match question {
            Question::Tree(w) => self.trees.contains_key(w),
            Question::Aware(w) => self.aware.contains_key(w),
            Question::Identity(w) => self.named.contains_key(w),
            Question::UnderPointer(w) => self.under.contains_key(w),
            Question::Proxy(w) => self.proxies.contains_key(w),
            Question::ActiveWindow => self.active is Some,
        }
    }

    /// Whether every reply known here is known there, and the same.
    pub open spec fn within(self, other: Knowledge) -> bool {
        &&& self.trees.submap_of(other.trees)
        &&& self.aware.submap_of(other.aware)
        &&& self.named.submap_of(other.named)
        &&& self.under.submap_of(other.under)
        &&& self.proxies.submap_of(other.proxies)
        &&& self.active is Some ==> self.active == other.active
    }

    /// Whether every question has a known reply.
    pub open spec fn complete(self) -> bool {
        forall|question: Question| #[trigger] self.knows(question)
    }

    /// Whether a window is known to carry `XdndAware`.
    pub open spec fn surely_aware(self, window: u32) -> bool {
        self.aware.contains_key(window) && self.aware[window] == Ok::<bool, Seq<char>>(true)
    }
}

/// The value of a reply that may have failed.
pub open spec fn reply_view<T>(reply: Result<T, String>) -> Result<T, Seq<char>> {
    match reply {
        Ok(value) => Ok(value),
        Err(message) => Err(message@),
    }
}

/// The value of a tree reply that may have failed.
pub open spec fn tree_view(reply: Result<TreeReply, String>) -> Result<TreeNode, Seq<char>> {
    match reply {
        Ok(node) => Ok(node@),
        Err(message) => Err(message@),
    }
}

/// The outcome of evaluating a search over what is known.
#[derive(Debug)]
pub enum Finding<T> {
    /// The reply to this question is missing.
    Ask(Question),
    /// The server failed to answer a question that cannot be skipped.
    Failed(String),
    /// The result.
    Known(T),
}

/// A finding as a mathematical value.
pub enum FindingView<T> {
    Ask(Question),
    Failed(Seq<char>),
    Known(T),
}

impl<T> View for Finding<T> {
    type V = FindingView<T>;

    open spec fn view(&self) -> FindingView<T> {
        match *self {
            Finding::Ask(question) => FindingView::Ask(question),
            Finding::Failed(message) => FindingView::Failed(message@),
            Finding::Known(value) => FindingView::Known(value),
        }
    }
}

/// The replies collected while one pointer position is looked at.
#[derive(Debug)]
pub struct DesktopFacts {
    pub trees: HashMap<u32, Result<TreeReply, String>>,
    pub aware: HashMap<u32, Result<bool, String>>,
    pub named: HashMap<u32, bool>,
    pub under: HashMap<u32, bool>,
    pub proxies: HashMap<u32, Result<Option<u32>, String>>,
    pub active: Option<Result<Option<u32>, String>>,
}

impl View for DesktopFacts {
    type V = Knowledge;

    open spec fn view(&self) -> Knowledge {
        Knowledge {
            trees: Map::new(
                |w: u32| self.trees@.contains_key(w),
                |w: u32| tree_view(self.trees@[w]),
            ),
            aware: Map::new(
                |w: u32| self.aware@.contains_key(w),
                |w: u32| reply_view(self.aware@[w]),
            ),
            named: self.named@,
            under: self.under@,
            proxies: Map::new(
                |w: u32| self.proxies@.contains_key(w),
                |w: u32| reply_view(self.proxies@[w]),
            ),
            active: match self.active {
                Some(reply) => Some(reply_view(reply)),
                None => None,
            },
        }
    }
}

impl DesktopFacts {
    /// Nothing is known yet.
    pub fn new() -> (facts: DesktopFacts)
        ensures
            forall|question: Question| !(#[trigger] facts@.knows(question)),
    {
        DesktopFacts {
            trees: HashMap::new(),
            aware: HashMap::new(),
            named: HashMap::new(),
            under: HashMap::new(),
            proxies: HashMap::new(),
            active: None,
        }
    }

    /// Note the reply to [`Question::Tree`].
    pub fn learn_tree(&mut self, window: u32, reply: Result<TreeReply, String>)
        ensures
            final(self)@ == (Knowledge {
                trees: old(self)@.trees.insert(window, tree_view(reply)),
                ..old(self)@
            }),
    {
        self.trees.insert(window, reply);
        assert(self@.trees =~= old(self)@.trees.insert(window, tree_view(reply)));
    }

    /// Note the reply to [`Question::Aware`].
    pub fn learn_aware(&mut self, window: u32, reply: Result<bool, String>)
        ensures
            final(self)@ == (Knowledge {
                aware: old(self)@.aware.insert(window, reply_view(reply)),
                ..old(self)@
            }),
    {
        self.aware.insert(window, reply);
        assert(self@.aware =~= old(self)@.aware.insert(window, reply_view(reply)));
    }

    /// Note the reply to [`Question::Identity`].
    pub fn learn_identity(&mut self, window: u32, named: bool)
        ensures
            final(self)@ == (Knowledge {
                named: old(self)@.named.insert(window, named),
                ..old(self)@
            }),
    {
        self.named.insert(window, named);
    }

    /// Note the reply to [`Question::UnderPointer`].
    pub fn learn_under_pointer(&mut self, window: u32, under: bool)
        ensures
            final(self)@ == (Knowledge {
                under: old(self)@.under.insert(window, under),
                ..old(self)@
            }),
    {
        self.under.insert(window, under);
    }

    /// Note the reply to [`Question::Proxy`].
    pub fn learn_proxy(&mut self, window: u32, reply: Result<Option<u32>, String>)
        ensures
            final(self)@ == (Knowledge {
                proxies: old(self)@.proxies.insert(window, reply_view(reply)),
                ..old(self)@
            }),
    {
        self.proxies.insert(window, reply);
        assert(self@.proxies =~= old(self)@.proxies.insert(window, reply_view(reply)));
    }

    /// Note the reply to [`Question::ActiveWindow`].
    pub fn learn_active_window(&mut self, reply: Result<Option<u32>, String>)
        ensures
            final(self)@ == (Knowledge { active: Some(reply_view(reply)), ..old(self)@ }),
    {
        self.active = Some(reply);
    }
}

} // verus!
