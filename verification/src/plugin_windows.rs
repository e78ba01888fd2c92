//! Registry of plugin-owned X11 window ids.
//!
//! GUI adapters register every editor window on open and give the guard back when
//! it closes.

use std::collections::HashSet;

use vstd::prelude::*;

verus! {

broadcast use vstd::std_specs::hash::group_hash_axioms;

/// The registered editor windows.
#[derive(Debug)]
pub struct PluginWindows {
    windows: HashSet<u32>,
}

impl View for PluginWindows {
    type V = Set<u32>;

    closed spec fn view(&self) -> Set<u32> {
        self.windows@
    }
}

impl PluginWindows {
    /// No window is registered.
    pub fn new() -> (registry: PluginWindows)
        ensures
            registry@ == Set::<u32>::empty(),
    {
        PluginWindows { windows: HashSet::new() }
    }
}

/// Handle for one registered plugin editor window.
///
/// Call [`register`](Self::register) when the window opens; giving the guard back
/// removes the window from the registry.
#[derive(Debug)]
pub struct PluginWindowGuard {
    window: u32,
}

impl PluginWindowGuard {
    /// The window that the guard stands for.
    pub closed spec fn guarded(self) -> u32 {
        self.window
    }

    /// Register a plugin-owned X11 window id. The id 0 is no window and is ignored.
    #[must_use]
    pub fn register(registry: &mut PluginWindows, x11_window_id: u32) -> (guard: Self)
        ensures
            guard.guarded() == x11_window_id,
            final(registry)@ == (if x11_window_id != 0 {
                old(registry)@.insert(x11_window_id)
            } else {
                old(registry)@
            }),
    {
        if x11_window_id != 0 {
            registry.windows.insert(x11_window_id);
        }
        PluginWindowGuard { window: x11_window_id }
    }

    /// Give the guard back: the window closed.
    pub fn release(self, registry: &mut PluginWindows)
        ensures
            final(registry)@ == (if self.guarded() != 0 {
                old(registry)@.remove(self.guarded())
            } else {
                old(registry)@
            }),
    {
        if self.window != 0 {
            registry.windows.remove(&self.window);
        }
    }
}

/// Whether a window is registered.
#[must_use]
pub fn is_registered_plugin_window(registry: &PluginWindows, window: u32) -> (registered: bool)
    ensures
        registered == registry@.contains(window),
{
    registry.windows.contains(&window)
}

} // verus!
