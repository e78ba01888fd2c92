//! Plugin drag lifecycle primitives.
//!
//! The crate does not render audio or MIDI. A plugin should render its export to a
//! temp file on the GUI/background side, then queue that path with
//! [`ExternalDragQueue`]. This module owns the
//! shared arming, preview metadata, render cache slot, short drag flash, and
//! self-drop tracking behavior.
//!
//! Coordinates and samples are of any type that can be copied; user interfaces
//! take a floating point type. Times are nanoseconds of a monotonic clock.

use std::path::PathBuf;

use vstd::prelude::*;
use vstd::std_specs::cmp::PartialEqSpec;

use crate::path::{contains_path, equal_paths, file_name, holds_path, path_label};
use crate::queue::{
    id_after, DragIds, ExternalDragPreview, ExternalDragQueue, PreviewView,
};

verus! {

/// How long the UI feedback after a queued drag lasts.
pub const DRAG_FLASH: u64 = 1_400_000_000;

/// How many exported paths are remembered.
pub const OWN_EXPORT_PATH_LIMIT: usize = 8;

/// Toolkit-neutral 2D point in logical UI points.
#[derive(Debug, Default, PartialEq)]
pub struct Point<F> {
    pub x: F,
    pub y: F,
}

impl<F: Clone> Clone for Point<F> {
    fn clone(&self) -> (point: Self)
        ensures
            cloned(self.x, point.x),
            cloned(self.y, point.y),
    {
        Point { x: self.x.clone(), y: self.y.clone() }
    }
}

impl<F: Copy> Copy for Point<F> {

}

impl<F> Point<F> {
    /// Build a point.
    #[must_use]
    pub fn new(x: F, y: F) -> (point: Self)
        ensures
            point == (Point { x, y }),
    {
        Point { x, y }
    }
}

/// Cached render path for repeated audio drags.
#[derive(Clone, Debug, PartialEq, Eq)]
pub struct RenderCache<K> {
    pub key: K,
    pub path: PathBuf,
}

/// Type of file payload being dragged.
#[derive(Clone, Copy, Debug, PartialEq, Eq, Structural)]
pub enum DragPayloadKind {
    Audio,
    Midi,
    Other,
}

/// Compact spectral preview for an audio selection.
#[derive(Clone, Debug, PartialEq)]
pub struct SpectralDragPreview<F> {
    pub columns: usize,
    pub rows: usize,
    pub energy: Vec<F>,
    pub low_hz: F,
    pub high_hz: F,
}

/// Preview metadata used by UI ghosts and optional platform drag previews.
#[derive(Clone, Debug, PartialEq)]
pub enum DragPreview<F> {
    Audio(Vec<(F, F)>),
    Spectral(SpectralDragPreview<F>),
    Midi,
    NoPreview,
}

/// Preview metadata as a mathematical value.
pub enum DragPreviewView<F> {
    Audio(Seq<(F, F)>),
    Spectral { columns: usize, rows: usize, energy: Seq<F>, low_hz: F, high_hz: F },
    Midi,
    NoPreview,
}

impl<F> View for DragPreview<F> {
    type V = DragPreviewView<F>;

    open spec fn view(&self) -> DragPreviewView<F> {
        match *self {
            DragPreview::Audio(buckets) => DragPreviewView::Audio(buckets@),
            DragPreview::Spectral(preview) => DragPreviewView::Spectral {
                columns: preview.columns,
                rows: preview.rows,
                energy: preview.energy@,
                low_hz: preview.low_hz,
                high_hz: preview.high_hz,
            },
            DragPreview::Midi => DragPreviewView::Midi,
            DragPreview::NoPreview => DragPreviewView::NoPreview,
        }
    }
}

impl<F> DragPreviewView<F> {
    /// The platform preview: audio and spectral previews have one.
    pub open spec fn platform(self) -> Option<PreviewView<F>> {
        match self {
            DragPreviewView::Audio(buckets) => Some(PreviewView::Waveform { buckets }),
            DragPreviewView::Spectral { columns, rows, energy, low_hz, high_hz } => Some(
                PreviewView::Spectral { columns, rows, energy, low_hz, high_hz },
            ),
            DragPreviewView::Midi => None,
            DragPreviewView::NoPreview => None,
        }
    }
}

/// The value of an optional platform preview.
pub open spec fn preview_view<F>(preview: Option<ExternalDragPreview<F>>) -> Option<
    PreviewView<F>,
> {
    match preview {
        Some(shown) => Some(shown@),
        None => None,
    }
}

/// Copy a list of samples.
pub fn copy_samples<F: Copy>(samples: &Vec<F>) -> (copy: Vec<F>)
    ensures
        copy@ == samples@,
{
    let mut out: Vec<F> = Vec::new();
    for i in 0..samples.len()
        invariant
            out@ == samples@.take(i as int),
    {
        out.push(samples[i]);
        assert(samples@.take(i + 1) == samples@.take(i as int).push(samples@[i as int]));
    }
    assert(samples@.take(samples@.len() as int) == samples@);
    out
}

impl<F: Copy> DragPreview<F> {
    /// Convert to queue-level platform preview metadata.
    #[must_use]
    pub fn external_preview(&self) -> (preview: Option<ExternalDragPreview<F>>)
        ensures
            preview_view(preview) == self@.platform(),
    {
        match self {
            DragPreview::Audio(buckets) => Some(
                ExternalDragPreview::Waveform { buckets: copy_samples(buckets) },
            ),
            DragPreview::Spectral(preview) => Some(
                ExternalDragPreview::Spectral {
                    columns: preview.columns,
                    rows: preview.rows,
                    energy: copy_samples(&preview.energy),
                    low_hz: preview.low_hz,
                    high_hz: preview.high_hz,
                },
            ),
            DragPreview::Midi | DragPreview::NoPreview => None,
        }
    }
}

/// A pointer gesture that may become an external drag.
#[derive(Clone, Debug)]
pub struct DragArmed<F> {
    pub started: u64,
    pub origin: Point<F>,
    pub kind: DragPayloadKind,
    pub label: String,
    pub preview: DragPreview<F>,
}

/// Short UI feedback after a queued drag.
#[derive(Clone, Debug)]
pub struct DragFlash<F> {
    pub until: u64,
    pub reused: bool,
    pub kind: DragPayloadKind,
    pub label: String,
    pub preview: DragPreview<F>,
}

/// Result of queueing a file drag.
#[derive(Clone, Debug, PartialEq, Eq)]
pub struct DragStart {
    pub path: PathBuf,
    pub reused: bool,
}

/// Status text a plugin may show after a drag attempt.
#[derive(Clone, Debug, PartialEq, Eq)]
pub enum DragStatus {
    Queued { label: String, reused: bool },
    Failed(String),
}

/// Shared drag/export state for plugin UIs.
#[derive(Clone, Debug)]
pub struct DragExportState<K, F> {
    render_cache: Option<RenderCache<K>>,
    flash: Option<DragFlash<F>>,
    armed: Option<DragArmed<F>>,
    own_export_paths: Vec<PathBuf>,
    own_export_path_limit: usize,
}

/// The state as a mathematical value.
pub struct ExportView<K, F> {
    pub render_cache: Option<RenderCache<K>>,
    pub flash: Option<DragFlash<F>>,
    pub armed: Option<DragArmed<F>>,
    /// The paths that are remembered, oldest first.
    pub own_export_paths: Seq<PathBuf>,
    pub own_export_path_limit: usize,
}

impl<K, F> View for DragExportState<K, F> {
    type V = ExportView<K, F>;

    closed spec fn view(&self) -> ExportView<K, F> {
        ExportView {
            render_cache: self.render_cache,
            flash: self.flash,
            armed: self.armed,
            own_export_paths: self.own_export_paths@,
            own_export_path_limit: self.own_export_path_limit,
        }
    }
}

impl<K, F> ExportView<K, F> {
    /// Whether no more paths are remembered than the limit allows.
    pub open spec fn valid(self) -> bool {
        self.own_export_paths.len() <= self.own_export_path_limit && self.own_export_path_limit > 0
    }
}

/// The remembered paths after one more: a path that is there already changes
/// nothing, and beyond the limit the oldest ones go.
pub open spec fn remembered(paths: Seq<PathBuf>, path: PathBuf, limit: nat) -> Seq<PathBuf> {
    if holds_path(paths, path) {
        paths
    } else {
        let grown = paths.push(path);
        if grown.len() > limit {
            grown.skip(grown.len() - limit)
        } else {
            grown
        }
    }
}

/// The path that an export is remembered under: its canonical form, else itself.
pub fn normalized_export_path(path: PathBuf, canonical: Option<PathBuf>) -> (normalized: PathBuf)
    ensures
        normalized == (match canonical {
            Some(found) => found,
            None => path,
        }),
{
    match canonical {
        Some(found) => found,
        None => path,
    }
}

impl<K, F> Default for DragExportState<K, F> {
    fn default() -> (state: Self)
        ensures
            state@ == (ExportView::<K, F> {
                render_cache: None,
                flash: None,
                armed: None,
                own_export_paths: seq![],
                own_export_path_limit: OWN_EXPORT_PATH_LIMIT,
            }),
            state@.valid(),
    {
        let state = DragExportState {
            render_cache: None,
            flash: None,
            armed: None,
            own_export_paths: Vec::new(),
            own_export_path_limit: OWN_EXPORT_PATH_LIMIT,
        };
        assert(state@.own_export_paths =~= seq![]);
        state
    }
}

impl<K, F> DragExportState<K, F> {
    /// Current render cache.
    #[must_use]
    pub fn render_cache(&self) -> (cache: Option<&RenderCache<K>>)
        ensures
            cache is Some == self@.render_cache is Some,
            cache matches Some(found) ==> Some(*found) == self@.render_cache,
    {
        self.render_cache.as_ref()
    }

    /// Replace the render cache.
    pub fn set_render_cache(&mut self, cache: RenderCache<K>)
        ensures
            final(self)@ == (ExportView { render_cache: Some(cache), ..old(self)@ }),
    {
        self.render_cache = Some(cache);
    }

    /// Clear the render cache.
    pub fn clear_cache(&mut self)
        ensures
            final(self)@ == (ExportView { render_cache: None, ..old(self)@ }),
    {
        self.render_cache = None;
    }

    /// Current armed gesture.
    #[must_use]
    pub fn armed(&self) -> (armed: Option<&DragArmed<F>>)
        ensures
            armed is Some == self@.armed is Some,
            armed matches Some(found) ==> Some(*found) == self@.armed,
    {
        self.armed.as_ref()
    }

    /// Current post-drag UI flash.
    #[must_use]
    pub fn flash(&self) -> (flash: Option<&DragFlash<F>>)
        ensures
            flash is Some == self@.flash is Some,
            flash matches Some(found) ==> Some(*found) == self@.flash,
    {
        self.flash.as_ref()
    }

    /// Arm a possible drag gesture.
    pub fn arm(
        &mut self,
        origin: Point<F>,
        kind: DragPayloadKind,
        label: String,
        preview: DragPreview<F>,
        now: u64,
    )
        ensures
            final(self)@ == (ExportView {
                armed: Some(DragArmed { started: now, origin, kind, label, preview }),
                ..old(self)@
            }),
    {
        self.armed = Some(DragArmed { started: now, origin, kind, label, preview });
    }

    /// Arm an audio drag.
    pub fn arm_audio(&mut self, origin: Point<F>, label: String, preview: DragPreview<F>, now: u64)
        ensures
            final(self)@ == (ExportView {
                armed: Some(
                    DragArmed {
                        started: now,
                        origin,
                        kind: DragPayloadKind::Audio,
                        label,
                        preview,
                    },
                ),
                ..old(self)@
            }),
    {
        self.arm(origin, DragPayloadKind::Audio, label, preview, now);
    }

    /// Arm a MIDI drag.
    pub fn arm_midi(&mut self, origin: Point<F>, label: String, now: u64)
        ensures
            final(self)@ == (ExportView {
                armed: Some(
                    DragArmed {
                        started: now,
                        origin,
                        kind: DragPayloadKind::Midi,
                        label,
                        preview: DragPreview::Midi,
                    },
                ),
                ..old(self)@
            }),
    {
        self.arm(origin, DragPayloadKind::Midi, label, DragPreview::Midi, now);
    }

    /// Cancel an armed drag.
    pub fn cancel_armed_drag(&mut self)
        ensures
            final(self)@ == (ExportView { armed: None, ..old(self)@ }),
    {
        self.armed = None;
    }

    /// Track paths exported by this plugin so self-drop can be ignored. The path is
    /// given as [`normalized_export_path`] says.
    pub fn remember_export_path(&mut self, path: PathBuf)
        ensures
            final(self)@ == (ExportView {
                own_export_paths: remembered(
                    old(self)@.own_export_paths,
                    path,
                    old(self)@.own_export_path_limit as nat,
                ),
                ..old(self)@
            }),
            old(self)@.valid() ==> final(self)@.valid(),
    {
        if contains_path(&self.own_export_paths, &path) {
            return;
        }
        let ghost limit = self.own_export_path_limit;
        let ghost grown = self.own_export_paths@.push(path);
        self.own_export_paths.push(path);
        assert(grown.skip(0) =~= grown);
        while self.own_export_paths.len() > self.own_export_path_limit
            invariant
                self.own_export_path_limit == limit,
                self.own_export_paths@.len() <= grown.len(),
                grown.len() > limit ==> self.own_export_paths@.len() >= limit,
                self.own_export_paths@ == grown.skip(grown.len() - self.own_export_paths@.len()),
                self@ == (ExportView { own_export_paths: self.own_export_paths@, ..old(self)@ }),
                grown.len() <= limit ==> self.own_export_paths@ == grown,
            decreases self.own_export_paths@.len(),
        {
            let ghost before = self.own_export_paths@;
            let _ = self.own_export_paths.remove(0);
            assert(self.own_export_paths@ =~= before.skip(1));
            assert(before.skip(1) =~= grown.skip(grown.len() - before.len() + 1));
        }
    }

    /// Returns true when `path` was recently exported by this drag source. The path
    /// is given as [`normalized_export_path`] says.
    #[must_use]
    pub fn is_own_export_path(&self, path: &PathBuf) -> (own: bool)
        ensures
            own == holds_path(self@.own_export_paths, *path),
    {
        contains_path(&self.own_export_paths, path)
    }
}

impl<K, F: Copy> DragExportState<K, F> {
    /// Check whether the pointer has moved far enough to start the drag.
    /// `far_enough` compares the pointer with the point where the gesture began.
    #[must_use]
    pub fn armed_drag_ready<D: Fn(Point<F>, Point<F>) -> bool>(
        &self,
        pointer: Point<F>,
        far_enough: D,
    ) -> (ready: bool)
        requires
            self@.armed matches Some(armed) ==> call_requires(far_enough, (pointer, armed.origin)),
        ensures
            match self@.armed {
                Some(armed) => call_ensures(far_enough, (pointer, armed.origin), ready),
                None => !ready,
            },
    {
        match &self.armed {
            Some(armed) => far_enough(pointer, armed.origin),
            None => false,
        }
    }

    /// Queue an exported file path using the current armed preview.
    ///
    /// A drag with a platform preview needs no UI feedback; any other one flashes.
    /// `normalized` is the path as [`normalized_export_path`] says.
    pub fn queue_exported_file(
        &mut self,
        queue: &mut ExternalDragQueue<F>,
        ids: &mut DragIds,
        path: PathBuf,
        normalized: PathBuf,
        reused: bool,
        now: u64,
    ) -> (start: DragStart)
        requires
            now + DRAG_FLASH <= u64::MAX,
        ensures
            start == (DragStart { path, reused }),
            final(ids).upcoming() == id_after(old(ids).upcoming()),
            final(queue).queued() matches Some(payload) && payload.id == old(ids).upcoming()
                && payload.paths@ == seq![path] && preview_view(payload.preview) == armed_preview(
                old(self)@,
            ).platform(),
            final(self)@.armed is None,
            final(self)@.render_cache == old(self)@.render_cache,
            final(self)@.own_export_path_limit == old(self)@.own_export_path_limit,
            final(self)@.own_export_paths == remembered(
                old(self)@.own_export_paths,
                normalized,
                old(self)@.own_export_path_limit as nat,
            ),
            final(self)@.flash is None == armed_preview(old(self)@).platform() is Some,
            final(self)@.flash matches Some(flash) ==> flash.until == now + DRAG_FLASH
                && flash.reused == reused && flash.kind == armed_kind(old(self)@)
                && flash.label@ == path_label(path) && flash.preview@ == armed_preview(old(self)@),
            old(self)@.valid() ==> final(self)@.valid(),
    {
        let (kind, drag_preview): (DragPayloadKind, DragPreview<F>) = match self.armed.take() {
            Some(armed) => (armed.kind, armed.preview),
            None => (DragPayloadKind::Other, DragPreview::NoPreview),
        };
        let preview = drag_preview.external_preview();
        let label = file_name(&path);
        self.remember_export_path(normalized);
        self.flash = if preview.is_none() {
            Some(
                DragFlash { until: now + DRAG_FLASH, reused, kind, label, preview: drag_preview },
            )
        } else {
            None
        };
        let paths: Vec<PathBuf> = vec![path.clone()];
        assert(paths@ =~= seq![path]);
        queue.drag_files_with_preview(ids, paths, preview);
        DragStart { path, reused }
    }
}

/// The kind of the armed gesture.
pub open spec fn armed_kind<K, F>(state: ExportView<K, F>) -> DragPayloadKind {
    match state.armed {
        Some(armed) => armed.kind,
        None => DragPayloadKind::Other,
    }
}

/// The preview of the armed gesture.
pub open spec fn armed_preview<K, F>(state: ExportView<K, F>) -> DragPreviewView<F> {
    match state.armed {
        Some(armed) => armed.preview@,
        None => DragPreviewView::NoPreview,
    }
}

fn same_key<K: Eq>(kept: &K, key: &K) -> (same: bool)
    ensures
        call_ensures(<K as PartialEq>::eq, (kept, key), same),
        K::obeys_eq_spec() ==> same == kept.eq_spec(key),
{
    kept.eq(key)
}

impl<K: Eq, F> DragExportState<K, F> {
    /// Reuse an existing render cache if its key still matches and the file exists.
    /// `exists` says whether the file of the cache exists.
    #[must_use]
    pub fn reusable_cache_path(&self, key: &K, exists: bool) -> (path: Option<&PathBuf>)
        ensures
            path matches Some(found) ==> exists && (self@.render_cache matches Some(cache)
                && cache.path == *found && call_ensures(
                <K as PartialEq>::eq,
                (&cache.key, key),
                true,
            )),
            path is None && exists ==> (self@.render_cache matches Some(cache) ==> call_ensures(
                <K as PartialEq>::eq,
                (&cache.key, key),
                false,
            )),
            K::obeys_eq_spec() ==> path is Some == (exists && (self@.render_cache matches Some(
                cache,
            ) && cache.key.eq_spec(key))),
    {
        match &self.render_cache {
            Some(cache) => {
                if same_key(&cache.key, key) && exists {
                    Some(&cache.path)
                } else {
                    None
                }
            },
            None => None,
        }
    }
}

/// A path that was just remembered is recognized as an own export, so that a drop
/// of it on the plugin can be ignored.
pub proof fn remembered_export_is_own(paths: Seq<PathBuf>, path: PathBuf, limit: nat)
    requires
        limit > 0,
    ensures
        holds_path(remembered(paths, path, limit), path),
{
    if !holds_path(paths, path) {
        let grown = paths.push(path);
        let kept = remembered(paths, path, limit);
        assert(kept.last() == path);
        assert(equal_paths(kept[kept.len() - 1], path));
    }
}

/// Remembering never forgets a path while there is room for it.
pub proof fn own_exports_stay_while_there_is_room(
    paths: Seq<PathBuf>,
    path: PathBuf,
    other: PathBuf,
    limit: nat,
)
    requires
        paths.len() < limit,
        holds_path(paths, other),
    ensures
        holds_path(remembered(paths, path, limit), other),
{
    if !holds_path(paths, path) {
        let i = choose|i: int|
            0 <= i < paths.len() && equal_paths(#[trigger] paths[i], other);
        assert(equal_paths(paths.push(path)[i], other));
    }
}

/// The remembered paths are the newest ones, in the order in which they came: a new path
/// comes last, and no more than the limit are kept.
pub proof fn newest_exports_are_remembered(
    paths: Seq<PathBuf>,
    path: PathBuf,
    limit: nat,
    other: int,
)
    requires
        0 < limit,
        paths.len() <= limit,
        forall|i: int| 0 <= i < paths.len() ==> !equal_paths(#[trigger] paths[i], path),
        0 <= other < paths.len(),
    ensures
        ({
            let kept = remembered(paths, path, limit);
            &&& kept.last() == path
            &&& kept.len() == (if paths.len() < limit {
                paths.len() + 1
            } else {
                limit
            })
            &&& paths.len() < limit ==> kept[other] == paths[other]
            &&& paths.len() == limit && other > 0 ==> kept[other - 1] == paths[other]
        }),
{
}

/// A path that is remembered already is not remembered twice, and nothing else moves.
pub proof fn known_exports_change_nothing(
    paths: Seq<PathBuf>,
    path: PathBuf,
    limit: nat,
    i: int,
)
    requires
        0 <= i < paths.len(),
        equal_paths(paths[i], path),
    ensures
        remembered(paths, path, limit) == paths,
{
}

/// Recordings and spectra are shown under the pointer as they are, and anything else
/// has no preview of its own.
pub proof fn previews_are_shown_as_they_are<F>(preview: DragPreviewView<F>)
    ensures
        match preview {
            DragPreviewView::Audio(samples) => match preview.platform() {
                Some(PreviewView::Waveform { buckets }) => buckets == samples,
                _ => false,
            },
            DragPreviewView::Spectral { columns, rows, energy, low_hz, high_hz } => {
                preview.platform() == Some(
                    PreviewView::Spectral { columns, rows, energy, low_hz, high_hz },
                )
            },
            _ => preview.platform() is None,
        },
{
}

} // verus!
