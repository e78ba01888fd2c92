//! The forms in which dragged files are offered.
//!
//! A drop target asks for dragged files in one of several forms: as a list of
//! URIs, as a GNOME copied-files list, or as plain paths. [`FileDragPayloadData`]
//! holds the files together with these forms.

use std::path::PathBuf;

use vstd::prelude::*;

use crate::request::{copy_offers, offer_views, OfferView, WaylandDragOffer};

verus! {

/// The written-out forms of a list of files.
#[derive(Debug)]
pub struct FileForms {
    /// The files as a URI list.
    pub uri_list: Vec<u8>,
    /// The files as a GNOME copied-files list.
    pub gnome_copied_files: Vec<u8>,
    /// The files as plain paths.
    pub plain_file_list: Vec<u8>,
    /// All forms with the MIME types they are offered under.
    pub offers: Vec<WaylandDragOffer>,
}

/// Dragged files, and the forms in which they are offered.
#[derive(Debug)]
pub struct FileDragPayloadData {
    paths: Vec<PathBuf>,
    forms: FileForms,
}

/// Dragged files and their forms, as mathematical values.
pub struct PayloadView {
    pub paths: Seq<PathBuf>,
    pub uri_list: Seq<u8>,
    pub gnome_copied_files: Seq<u8>,
    pub plain_file_list: Seq<u8>,
    pub offers: Seq<OfferView>,
}

impl View for FileDragPayloadData {
    type V = PayloadView;

    closed spec fn view(&self) -> PayloadView {
        PayloadView {
            paths: self.paths@,
            uri_list: self.forms.uri_list@,
            gnome_copied_files: self.forms.gnome_copied_files@,
            plain_file_list: self.forms.plain_file_list@,
            offers: offer_views(self.forms.offers@),
        }
    }
}

impl FileDragPayloadData {
    /// Take files and their forms.
    ///
    /// # Errors
    ///
    /// Fails when there are no files.
    pub fn new(paths: Vec<PathBuf>, forms: FileForms) -> (payload: Result<Self, String>)
        ensures
            payload is Ok == (paths@.len() > 0),
            payload matches Ok(data) ==> data@ == (PayloadView {
                paths: paths@,
                uri_list: forms.uri_list@,
                gnome_copied_files: forms.gnome_copied_files@,
                plain_file_list: forms.plain_file_list@,
                offers: offer_views(forms.offers@),
            }),
            payload matches Err(message) ==> message@ == "no files to drag"@,
    {
        if paths.len() == 0 {
            return Err("no files to drag".to_owned());
        }
        Ok(FileDragPayloadData { paths, forms })
    }

    /// The dragged files.
    #[must_use]
    pub fn paths(&self) -> (paths: &Vec<PathBuf>)
        ensures
            paths@ == self@.paths,
    {
        &self.paths
    }

    /// The files as a URI list.
    #[must_use]
    pub fn uri_list(&self) -> (bytes: &Vec<u8>)
        ensures
            bytes@ == self@.uri_list,
    {
        &self.forms.uri_list
    }

    /// The files as a GNOME copied-files list.
    #[must_use]
    pub fn gnome_copied_files(&self) -> (bytes: &Vec<u8>)
        ensures
            bytes@ == self@.gnome_copied_files,
    {
        &self.forms.gnome_copied_files
    }

    /// The files as plain paths.
    #[must_use]
    pub fn plain_file_list(&self) -> (bytes: &Vec<u8>)
        ensures
            bytes@ == self@.plain_file_list,
    {
        &self.forms.plain_file_list
    }

    /// All forms with the MIME types they are offered under.
    #[must_use]
    pub fn offers(&self) -> (offers: &Vec<WaylandDragOffer>)
        ensures
            offer_views(offers@) == self@.offers,
    {
        &self.forms.offers
    }

    /// How many forms are offered.
    #[must_use]
    pub fn offer_count(&self) -> (count: usize)
        ensures
            count == self@.offers.len(),
    {
        self.forms.offers.len()
    }

    /// The offers of a Wayland data source.
    #[must_use]
    pub fn wayland_offers(&self) -> (offers: Vec<WaylandDragOffer>)
        ensures
            offer_views(offers@) == self@.offers,
    {
        copy_offers(&self.forms.offers)
    }
}

} // verus!
