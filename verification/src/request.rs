//! Native Wayland drag requests.

use std::path::PathBuf;

use vstd::prelude::*;

verus! {

/// A single native Wayland drag data offer.
#[derive(Clone, Debug, PartialEq, Eq)]
pub struct WaylandDragOffer {
    mime_type: String,
    data: Vec<u8>,
}

/// A drag data offer as a mathematical value.
pub struct OfferView {
    pub mime_type: Seq<char>,
    pub data: Seq<u8>,
}

impl View for WaylandDragOffer {
    type V = OfferView;

    closed spec fn view(&self) -> OfferView {
        OfferView { mime_type: self.mime_type@, data: self.data@ }
    }
}

/// The offers of a list as mathematical values.
pub open spec fn offer_views(offers: Seq<WaylandDragOffer>) -> Seq<OfferView> {
    Seq::new(offers.len(), |i: int| offers[i]@)
}

impl WaylandDragOffer {
    /// Build a Wayland data-device offer for one MIME type.
    #[must_use]
    pub fn new(mime_type: String, data: Vec<u8>) -> (offer: Self)
        ensures
            offer@ == (OfferView { mime_type: mime_type@, data: data@ }),
    {
        WaylandDragOffer { mime_type, data }
    }

    /// MIME type advertised through `wl_data_source.offer`.
    #[must_use]
    pub fn mime_type(&self) -> (mime_type: &str)
        ensures
            mime_type@ == self@.mime_type,
    {
        self.mime_type.as_str()
    }

    /// Bytes to write when the compositor calls `wl_data_source.send`.
    #[must_use]
    pub fn data(&self) -> (data: &[u8])
        ensures
            data@ == self@.data,
    {
        self.data.as_slice()
    }

    /// A copy of the offer.
    #[must_use]
    pub fn duplicate(&self) -> (copy: Self)
        ensures
            copy@ == self@,
    {
        WaylandDragOffer { mime_type: self.mime_type.clone(), data: copy_bytes(&self.data) }
    }
}

/// Copy a list of bytes.
pub fn copy_bytes(bytes: &Vec<u8>) -> (copy: Vec<u8>)
    ensures
        copy@ == bytes@,
{
    let mut out: Vec<u8> = Vec::new();
    for i in 0..bytes.len()
        invariant
            out@ == bytes@.take(i as int),
    {
        out.push(bytes[i]);
        assert(bytes@.take(i + 1) == bytes@.take(i as int).push(bytes@[i as int]));
    }
    assert(bytes@.take(bytes@.len() as int) == bytes@);
    out
}

/// Copy a list of offers.
pub fn copy_offers(offers: &Vec<WaylandDragOffer>) -> (copy: Vec<WaylandDragOffer>)
    ensures
        offer_views(copy@) == offer_views(offers@),
{
    let mut out: Vec<WaylandDragOffer> = Vec::new();
    for i in 0..offers.len()
        invariant
            out@.len() == i,
            forall|k: int| 0 <= k < i ==> (#[trigger] out@[k])@ == offers@[k]@,
    {
        out.push(offers[i].duplicate());
    }
    assert(offer_views(out@) =~= offer_views(offers@));
    out
}

/// Native Wayland drag request owned by the windowing backend.
#[derive(Clone, Debug, PartialEq, Eq)]
pub struct WaylandExternalDragRequest {
    offers: Vec<WaylandDragOffer>,
    fallback_file_paths: Vec<PathBuf>,
}

/// A drag request as a mathematical value.
pub struct RequestView {
    pub offers: Seq<OfferView>,
    pub fallback_file_paths: Seq<PathBuf>,
}

impl View for WaylandExternalDragRequest {
    type V = RequestView;

    closed spec fn view(&self) -> RequestView {
        RequestView {
            offers: offer_views(self.offers@),
            fallback_file_paths: self.fallback_file_paths@,
        }
    }
}

impl WaylandExternalDragRequest {
    /// Build a native Wayland file drag request.
    #[must_use]
    pub fn new(offers: Vec<WaylandDragOffer>, fallback_file_paths: Vec<PathBuf>) -> (request: Self)
        ensures
            request@ == (RequestView {
                offers: offer_views(offers@),
                fallback_file_paths: fallback_file_paths@,
            }),
    {
        WaylandExternalDragRequest { offers, fallback_file_paths }
    }

    /// MIME offers that should be advertised by `wl_data_source`.
    #[must_use]
    pub fn offers(&self) -> (offers: &Vec<WaylandDragOffer>)
        ensures
            offer_views(offers@) == self@.offers,
    {
        &self.offers
    }

    /// File paths retained for diagnostics and manual import fallback.
    #[must_use]
    pub fn fallback_file_paths(&self) -> (paths: &Vec<PathBuf>)
        ensures
            paths@ == self@.fallback_file_paths,
    {
        &self.fallback_file_paths
    }
}

/// Why the current window cannot start a native Wayland external drag.
#[derive(Clone, Copy, Debug, PartialEq, Eq, Structural)]
pub enum WaylandExternalDragError {
    /// The active window platform is not a native Wayland backend.
    UnsupportedBackend,
    /// The backend has no active `wl_surface` for the plugin editor.
    MissingSurface,
    /// The backend has no active `wl_seat`/data-device pair.
    MissingSeat,
    /// The backend does not have the pointer button serial that initiated the drag.
    MissingPointerButtonSerial,
    /// The request did not contain any MIME offers.
    EmptyOfferSet,
}

impl WaylandExternalDragError {
    /// The text of the error.
    pub open spec fn text(self) -> Seq<char> {
        match self {
            WaylandExternalDragError::UnsupportedBackend =>
                "native Wayland drag is not supported by this backend"@,
            WaylandExternalDragError::MissingSurface => "native Wayland drag is missing wl_surface"@,
            WaylandExternalDragError::MissingSeat =>
                "native Wayland drag is missing wl_seat/data-device"@,
            WaylandExternalDragError::MissingPointerButtonSerial =>
                "native Wayland drag is missing the initiating pointer button serial"@,
            WaylandExternalDragError::EmptyOfferSet => "native Wayland drag has no MIME offers"@,
        }
    }

    /// The text of the error.
    #[must_use]
    pub fn message(self) -> (text: &'static str)
        ensures
            text@ == self.text(),
    {
        match self {
            WaylandExternalDragError::UnsupportedBackend => {
                "native Wayland drag is not supported by this backend"
            },
            WaylandExternalDragError::MissingSurface => "native Wayland drag is missing wl_surface",
            WaylandExternalDragError::MissingSeat => {
                "native Wayland drag is missing wl_seat/data-device"
            },
            WaylandExternalDragError::MissingPointerButtonSerial => {
                "native Wayland drag is missing the initiating pointer button serial"
            },
            WaylandExternalDragError::EmptyOfferSet => "native Wayland drag has no MIME offers",
        }
    }
}

/// The reason why a drag cannot start is known by its text.
pub proof fn errors_are_known_by_their_texts(error: WaylandExternalDragError)
    ensures
        error.text() == "native Wayland drag is not supported by this backend"@ <==> error is UnsupportedBackend,
        error.text() == "native Wayland drag is missing wl_surface"@ <==> error is MissingSurface,
        error.text() == "native Wayland drag is missing wl_seat/data-device"@ <==> error is MissingSeat,
        error.text() == "native Wayland drag is missing the initiating pointer button serial"@ <==> error is MissingPointerButtonSerial,
        error.text() == "native Wayland drag has no MIME offers"@ <==> error is EmptyOfferSet,
{
    reveal_strlit("native Wayland drag is not supported by this backend");
    reveal_strlit("native Wayland drag is missing wl_surface");
    reveal_strlit("native Wayland drag is missing wl_seat/data-device");
    reveal_strlit("native Wayland drag is missing the initiating pointer button serial");
    reveal_strlit("native Wayland drag has no MIME offers");
    assert("native Wayland drag is not supported by this backend"@.len() == 52);
    assert("native Wayland drag is missing wl_surface"@.len() == 41);
    assert("native Wayland drag is missing wl_seat/data-device"@.len() == 50);
    assert("native Wayland drag is missing the initiating pointer button serial"@.len() == 67);
    assert("native Wayland drag has no MIME offers"@.len() == 38);
}

} // verus!
