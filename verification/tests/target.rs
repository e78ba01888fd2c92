use audio_plugin_dnd::desktop::{DesktopFacts, Finding, Question, TreeReply, NO_WINDOW};
use audio_plugin_dnd::target::{
    active_xdnd_target, bridge_release_target, find_xdnd_target, has_client_identity,
    is_anonymous_xdnd_bridge, is_real_xdnd_target, window_contains_root_point, BridgeRelease,
    Probe, SearchPhase,
};
use std::collections::HashMap;

const ROOT: u32 = 1;
const SOURCE: u32 = 2;
const ORIGIN: u32 = 3;

/// A desktop that answers the questions of a search.
struct Desktop {
    children: HashMap<u32, Vec<u32>>,
    aware: Vec<u32>,
    named: Vec<u32>,
    under: Vec<u32>,
    proxies: HashMap<u32, u32>,
    active: Option<u32>,
    broken_trees: Vec<u32>,
}

impl Desktop {
    fn new(children: &[(u32, &[u32])]) -> Desktop {
        Desktop {
            children: children
                .iter()
                .map(|(window, list)| (*window, list.to_vec()))
                .collect(),
            aware: Vec::new(),
            named: Vec::new(),
            under: Vec::new(),
            proxies: HashMap::new(),
            active: None,
            broken_trees: Vec::new(),
        }
    }

    fn parent(&self, window: u32) -> u32 {
        self.children
            .iter()
            .find(|(_, list)| list.contains(&window))
            .map_or(NO_WINDOW, |(parent, _)| *parent)
    }

    fn answer(&self, facts: &mut DesktopFacts, question: Question) {
        match question {
            Question::Tree(w) if self.broken_trees.contains(&w) => {
                facts.learn_tree(w, Err("BadWindow".to_string()));
            }
            Question::Tree(w) => facts.learn_tree(
                w,
                Ok(TreeReply {
                    parent: self.parent(w),
                    children: self.children.get(&w).cloned().unwrap_or_default(),
                }),
            ),
            Question::Aware(w) => facts.learn_aware(w, Ok(self.aware.contains(&w))),
            Question::Identity(w) => facts.learn_identity(w, self.named.contains(&w)),
            Question::UnderPointer(w) => facts.learn_under_pointer(w, self.under.contains(&w)),
            Question::Proxy(w) => facts.learn_proxy(w, Ok(self.proxies.get(&w).copied())),
            Question::ActiveWindow => facts.learn_active_window(Ok(self.active)),
        }
    }

    fn ask<T>(&self, find: impl Fn(&DesktopFacts) -> Finding<T>) -> Result<T, String> {
        let mut facts = DesktopFacts::new();
        for _ in 0..1000 {
            match find(&facts) {
                Finding::Ask(question) => self.answer(&mut facts, question),
                Finding::Failed(message) => return Err(message),
                Finding::Known(value) => return Ok(value),
            }
        }
        panic!("the search does not end");
    }

    fn search(&self, origin: Option<u32>) -> Result<Option<u32>, String> {
        let probe = probe(origin);
        let mut phase = SearchPhase::Descending(probe.root);
        for _ in 0..1000 {
            let next = self.ask(|facts| find_xdnd_target(facts, &probe, phase))?;
            if let SearchPhase::Done(target) = next {
                return Ok(target);
            }
            phase = next;
        }
        panic!("the search does not end");
    }

    fn release(&self, data: Option<u32>, accepted: Option<u32>, entered: Option<u32>) -> BridgeRelease {
        let probe = probe(Some(ORIGIN));
        self.ask(|facts| bridge_release_target(facts, &probe, 40, data, accepted, entered))
            .expect("release")
    }
}

fn probe(origin: Option<u32>) -> Probe {
    Probe {
        root: ROOT,
        source: SOURCE,
        origin,
    }
}

#[test]
fn descends_to_the_topmost_window_and_climbs_to_an_aware_one() {
    let mut desktop = Desktop::new(&[(ROOT, &[10, 11]), (11, &[12]), (12, &[])]);
    desktop.under = vec![ROOT, 10, 11, 12];
    desktop.aware = vec![10, 11];
    desktop.named = vec![10, 11];
    assert_eq!(desktop.search(None), Ok(Some(11)));
    desktop.under = vec![ROOT, 10];
    assert_eq!(desktop.search(None), Ok(Some(10)));
}

#[test]
fn source_and_origin_are_passed_over() {
    let mut desktop = Desktop::new(&[(ROOT, &[10, ORIGIN, SOURCE])]);
    desktop.under = vec![ROOT, 10, ORIGIN, SOURCE];
    desktop.aware = vec![10, ORIGIN, SOURCE];
    desktop.named = vec![10];
    assert_eq!(desktop.search(Some(ORIGIN)), Ok(Some(10)));
}

#[test]
fn the_origin_is_no_target_even_inside() {
    let mut desktop = Desktop::new(&[(ROOT, &[20]), (20, &[ORIGIN]), (ORIGIN, &[21])]);
    desktop.under = vec![ROOT, 20, ORIGIN];
    desktop.aware = vec![20];
    desktop.named = vec![20];
    assert_eq!(desktop.search(Some(ORIGIN)), Ok(Some(20)));
}

#[test]
fn a_named_target_is_preferred_to_the_bridge_above_it() {
    let mut desktop = Desktop::new(&[(ROOT, &[10, 40])]);
    desktop.under = vec![ROOT, 10, 40];
    desktop.aware = vec![10, 40];
    desktop.named = vec![10];
    assert_eq!(desktop.search(None), Ok(Some(10)));
    desktop.named = vec![];
    assert_eq!(desktop.search(None), Ok(Some(40)));
}

#[test]
fn proxies_stand_in_for_their_windows() {
    let mut desktop = Desktop::new(&[(ROOT, &[10])]);
    desktop.under = vec![ROOT, 10];
    desktop.aware = vec![10];
    desktop.named = vec![10];
    desktop.proxies.insert(10, 77);
    assert_eq!(desktop.search(None), Ok(Some(77)));
}

#[test]
fn bridges_and_the_active_window_come_last() {
    let mut desktop = Desktop::new(&[(ROOT, &[10, 40]), (50, &[])]);
    // Nothing takes drops: nothing is found.
    desktop.under = vec![ROOT, 10];
    assert_eq!(desktop.search(None), Ok(None));
    // The active window takes drops.
    desktop.active = Some(50);
    desktop.aware = vec![50];
    assert_eq!(desktop.search(None), Ok(Some(50)));
    assert_eq!(desktop.search(Some(50)), Ok(None));
    desktop.active = Some(NO_WINDOW);
    assert_eq!(desktop.search(None), Ok(None));
}

#[test]
fn failures_of_the_server_are_reported() {
    let mut desktop = Desktop::new(&[(ROOT, &[10])]);
    desktop.under = vec![ROOT, 10];
    desktop.broken_trees = vec![ROOT];
    assert_eq!(desktop.search(None), Err("BadWindow".to_string()));
}

#[test]
fn windows_are_told_apart() {
    let mut desktop = Desktop::new(&[(ROOT, &[10, 40])]);
    desktop.aware = vec![10, 40];
    desktop.named = vec![10, 60];
    assert_eq!(desktop.ask(|facts| is_real_xdnd_target(facts, 10)), Ok(true));
    assert_eq!(desktop.ask(|facts| is_real_xdnd_target(facts, 40)), Ok(false));
    assert_eq!(desktop.ask(|facts| is_real_xdnd_target(facts, 60)), Ok(false));
    assert_eq!(desktop.ask(|facts| is_anonymous_xdnd_bridge(facts, 40)), Ok(true));
    assert_eq!(desktop.ask(|facts| is_anonymous_xdnd_bridge(facts, 10)), Ok(false));
    assert_eq!(desktop.ask(|facts| is_anonymous_xdnd_bridge(facts, 70)), Ok(false));
}

#[test]
fn the_active_window_needs_to_take_drops() {
    let mut desktop = Desktop::new(&[]);
    desktop.active = Some(50);
    let none = probe(None);
    assert_eq!(desktop.ask(|facts| active_xdnd_target(facts, &none)), Ok(None));
    desktop.aware = vec![50];
    desktop.proxies.insert(50, 51);
    assert_eq!(desktop.ask(|facts| active_xdnd_target(facts, &none)), Ok(Some(51)));
}

#[test]
fn releases_over_a_bridge_go_to_named_targets() {
    let mut desktop = Desktop::new(&[(ROOT, &[10, 11, 12, 40])]);
    desktop.aware = vec![10, 40];
    desktop.named = vec![10];
    desktop.under = vec![10, 40];
    assert_eq!(desktop.release(None, None, None), BridgeRelease::Resolved(10));
    desktop.named = vec![];
    assert_eq!(desktop.release(None, None, None), BridgeRelease::Bridge(40));
    desktop.under = vec![11, 12, 40];
    desktop.aware = vec![11, 12, 40];
    desktop.named = vec![];
    assert_eq!(
        desktop.release(Some(13), Some(11), Some(12)),
        BridgeRelease::Reused(11)
    );
    assert_eq!(
        desktop.release(Some(12), Some(11), None),
        BridgeRelease::Reused(12)
    );
    assert_eq!(
        desktop.release(Some(13), None, None),
        BridgeRelease::Bridge(40)
    );
    assert_eq!(BridgeRelease::Resolved(10).window(), 10);
    assert_eq!(BridgeRelease::Reused(11).window(), 11);
    assert_eq!(BridgeRelease::Bridge(40).window(), 40);
}

#[test]
fn server_replies_are_read() {
    assert!(!has_client_identity(&vec![], &vec![], &vec![]));
    assert!(has_client_identity(&vec![1], &vec![], &vec![]));
    assert!(has_client_identity(&vec![], &vec![1], &vec![]));
    assert!(has_client_identity(&vec![], &vec![], &vec![1]));

    assert!(window_contains_root_point(Some((10, 20)), Some((0, 0))));
    assert!(window_contains_root_point(Some((10, 20)), Some((9, 19))));
    assert!(!window_contains_root_point(Some((10, 20)), Some((10, 19))));
    assert!(!window_contains_root_point(Some((10, 20)), Some((9, 20))));
    assert!(!window_contains_root_point(Some((10, 20)), Some((-1, 5))));
    assert!(!window_contains_root_point(None, Some((0, 0))));
    assert!(!window_contains_root_point(Some((10, 20)), None));
}
