//! Toolkit-neutral queue for drag requests emitted by plugin UI code.
//!
//! Samples of previews are of any type that can be copied; user interfaces take
//! a floating point type.

use std::path::PathBuf;

use vstd::prelude::*;

verus! {

/// One normalized MIDI note bar for the drag chip (0..1 time and pitch).
#[derive(Debug, PartialEq)]
pub struct MidiChipNote<F> {
    /// Note start in selection time (0 = left, 1 = right).
    pub start: F,
    /// Note end in selection time.
    pub end: F,
    /// Pitch (0 = low / bottom, 1 = high / top).
    pub pitch: F,
}

impl<F: Clone> Clone for MidiChipNote<F> {
    fn clone(&self) -> (note: Self)
        ensures
            cloned(self.start, note.start),
            cloned(self.end, note.end),
            cloned(self.pitch, note.pitch),
    {
        MidiChipNote {
            start: self.start.clone(),
            end: self.end.clone(),
            pitch: self.pitch.clone(),
        }
    }
}

impl<F: Copy> Copy for MidiChipNote<F> {

}

/// Optional drag preview metadata for platforms/toolkits that can show it.
#[derive(Clone, Debug, PartialEq)]
pub enum ExternalDragPreview<F> {
    /// Min/max waveform buckets in normalized audio amplitude.
    Waveform { buckets: Vec<(F, F)> },
    /// Compact spectral preview data (column-major energy: `column * rows + row`).
    Spectral { columns: usize, rows: usize, energy: Vec<F>, low_hz: F, high_hz: F },
    /// Piano-roll note bars for the dragged MIDI selection.
    Midi { notes: Vec<MidiChipNote<F>> },
}

/// A drag preview as a mathematical value.
pub enum PreviewView<F> {
    Waveform { buckets: Seq<(F, F)> },
    Spectral { columns: usize, rows: usize, energy: Seq<F>, low_hz: F, high_hz: F },
    Midi { notes: Seq<MidiChipNote<F>> },
}

impl<F> View for ExternalDragPreview<F> {
    type V = PreviewView<F>;

    open spec fn view(&self) -> PreviewView<F> {
        match *self {
            ExternalDragPreview::Waveform { buckets } => PreviewView::Waveform {
                buckets: buckets@,
            },
            ExternalDragPreview::Spectral {
                columns,
                rows,
                energy,
                low_hz,
                high_hz,
            } => PreviewView::Spectral { columns, rows, energy: energy@, low_hz, high_hz },
            ExternalDragPreview::Midi { notes } => PreviewView::Midi { notes: notes@ },
        }
    }
}

/// File drag payload passed from plugin UI code to a platform backend.
#[derive(Clone, Debug, PartialEq)]
pub struct ExternalDragPayload<F> {
    pub id: u64,
    pub paths: Vec<PathBuf>,
    pub preview: Option<ExternalDragPreview<F>>,
}

/// Source of process-local drag ids.
#[derive(Debug)]
pub struct DragIds {
    next: u64,
}

impl DragIds {
    /// The id that is handed out next.
    pub closed spec fn upcoming(self) -> u64 {
        self.next
    }

    /// Ids are handed out from 1.
    pub fn new() -> (ids: DragIds)
        ensures
            ids.upcoming() == 1,
    {
        DragIds { next: 1 }
    }
}

/// The id after `id`; after the last one, ids start over at 0.
pub open spec fn id_after(id: u64) -> u64 {
    if id == u64::MAX {
        0
    } else {
        (id + 1) as u64
    }
}

/// Generate a process-local monotonic drag id for diagnostics.
#[must_use]
pub fn next_external_drag_id(ids: &mut DragIds) -> (id: u64)
    ensures
        id == old(ids).upcoming(),
        final(ids).upcoming() == id_after(old(ids).upcoming()),
{
    let id: u64 = ids.next;
    ids.next = if id == u64::MAX {
        0
    } else {
        id + 1
    };
    id
}

/// The id that is handed out after `count` others.
pub open spec fn id_after_many(id: u64, count: nat) -> u64
    decreases count,
{
    if count == 0 {
        id
    } else {
        id_after(id_after_many(id, (count - 1) as nat))
    }
}

/// Drag ids grow until the counter is used up: the ids of fewer than 2^64 drags
/// are all different.
pub proof fn drag_ids_are_monotonic(first: u64, count: nat)
    requires
        first + count <= u64::MAX,
    ensures
        id_after_many(first, count) == first + count,
    decreases count,
{
    if count > 0 {
        drag_ids_are_monotonic(first, (count - 1) as nat);
    }
}

/// Single-slot queue matching plugin GUI frame/update loops.
#[derive(Clone, Debug)]
pub struct ExternalDragQueue<F> {
    pending: Option<ExternalDragPayload<F>>,
}

impl<F> Default for ExternalDragQueue<F> {
    fn default() -> (queue: Self)
        ensures
            queue.queued() is None,
    {
        ExternalDragQueue::new()
    }
}

impl<F> ExternalDragQueue<F> {
    /// The queued payload.
    pub closed spec fn queued(self) -> Option<ExternalDragPayload<F>> {
        self.pending
    }

    /// An empty queue.
    pub fn new() -> (queue: Self)
        ensures
            queue.queued() is None,
    {
        ExternalDragQueue { pending: None }
    }

    /// Queue a file drag.
    pub fn drag_files(&mut self, ids: &mut DragIds, paths: Vec<PathBuf>)
        ensures
            final(self).queued() == Some(
                ExternalDragPayload::<F> { id: old(ids).upcoming(), paths, preview: None },
            ),
            final(ids).upcoming() == id_after(old(ids).upcoming()),
    {
        self.drag_files_with_preview(ids, paths, None);
    }

    /// Queue a file drag with optional preview metadata. A drag that was queued
    /// before is dropped.
    pub fn drag_files_with_preview(
        &mut self,
        ids: &mut DragIds,
        paths: Vec<PathBuf>,
        preview: Option<ExternalDragPreview<F>>,
    )
        ensures
            final(self).queued() == Some(
                ExternalDragPayload { id: old(ids).upcoming(), paths, preview },
            ),
            final(ids).upcoming() == id_after(old(ids).upcoming()),
    {
        let id: u64 = next_external_drag_id(ids);
        self.pending = Some(ExternalDragPayload { id, paths, preview });
    }

    /// Take the currently queued drag payload.
    pub fn take(&mut self) -> (payload: Option<ExternalDragPayload<F>>)
        ensures
            payload == old(self).queued(),
            final(self).queued() is None,
    {
        self.pending.take()
    }

    /// Borrow the currently queued drag payload.
    #[must_use]
    pub fn pending(&self) -> (payload: Option<&ExternalDragPayload<F>>)
        ensures
            payload is Some == self.queued() is Some,
            payload matches Some(queued) ==> Some(*queued) == self.queued(),
    {
        self.pending.as_ref()
    }
}

/// Of two drags the later one has the larger id, until the counter is used up.
pub proof fn later_drags_have_larger_ids(id: u64)
    ensures
        id < u64::MAX ==> id_after(id) == id + 1,
        id == u64::MAX ==> id_after(id) == 0,
{
}

} // verus!
