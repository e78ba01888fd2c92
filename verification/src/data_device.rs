//! Native Wayland drags that wait for, or take part in, a data-device exchange.

use std::collections::VecDeque;

use vstd::prelude::*;

use crate::request::{
    copy_offers, offer_views, OfferView, WaylandDragOffer, WaylandExternalDragError,
    WaylandExternalDragRequest,
};
use crate::text::{same_text, texts};

verus! {

/// A drag that is offered to other clients.
#[derive(Clone, Debug)]
pub struct PendingWaylandDrag {
    offers: Vec<WaylandDragOffer>,
    accepted_mime: Option<String>,
    sent_mimes: VecDeque<String>,
    drop_performed: bool,
    finished: bool,
}

/// A drag that is offered to other clients, as a mathematical value.
pub struct PendingView {
    pub offers: Seq<OfferView>,
    pub accepted_mime: Option<Seq<char>>,
    /// The MIME types that were sent, oldest first.
    pub sent_mimes: Seq<Seq<char>>,
    pub drop_performed: bool,
    pub finished: bool,
}

/// The text of an optional string.
pub open spec fn text_of(text: Option<String>) -> Option<Seq<char>> {
    match text {
        Some(chars) => Some(chars@),
        None => None,
    }
}

impl View for PendingWaylandDrag {
    type V = PendingView;

    closed spec fn view(&self) -> PendingView {
        PendingView {
            offers: offer_views(self.offers@),
            accepted_mime: text_of(self.accepted_mime),
            sent_mimes: texts(self.sent_mimes@),
            drop_performed: self.drop_performed,
            finished: self.finished,
        }
    }
}

/// The bytes of the first offer of a MIME type.
pub open spec fn offered_bytes(offers: Seq<OfferView>, mime_type: Seq<char>) -> Option<Seq<u8>>
    decreases offers.len(),
{
    if offers.len() == 0 {
        None
    } else if offers[0].mime_type == mime_type {
        Some(offers[0].data)
    } else {
        offered_bytes(offers.drop_first(), mime_type)
    }
}

/// The MIME types of some offers.
pub open spec fn offered_types(offers: Seq<OfferView>) -> Seq<Seq<char>> {
    Seq::new(offers.len(), |i: int| offers[i].mime_type)
}

impl Default for PendingWaylandDrag {
    fn default() -> (pending: Self)
        ensures
            pending@ == (PendingView {
                offers: seq![],
                accepted_mime: None,
                sent_mimes: seq![],
                drop_performed: false,
                finished: false,
            }),
    {
        let pending = PendingWaylandDrag {
            offers: Vec::new(),
            accepted_mime: None,
            sent_mimes: VecDeque::new(),
            drop_performed: false,
            finished: false,
        };
        assert(pending@.offers =~= seq![]);
        assert(pending@.sent_mimes =~= seq![]);
        pending
    }
}

impl PendingWaylandDrag {
    /// Offer the forms of a request.
    ///
    /// # Errors
    ///
    /// Fails when the request holds no forms.
    pub fn from_request(request: WaylandExternalDragRequest) -> (pending: Result<
        Self,
        WaylandExternalDragError,
    >)
        ensures
            pending is Ok == (request@.offers.len() > 0),
            pending matches Err(error) ==> error == WaylandExternalDragError::EmptyOfferSet,
            pending matches Ok(drag) ==> drag@ == (PendingView {
                offers: request@.offers,
                accepted_mime: None,
                sent_mimes: seq![],
                drop_performed: false,
                finished: false,
            }),
    {
        let offers = request.offers();
        assert(offer_views(offers@).len() == offers@.len());
        if offers.len() == 0 {
            return Err(WaylandExternalDragError::EmptyOfferSet);
        }
        let pending = PendingWaylandDrag {
            offers: copy_offers(offers),
            accepted_mime: None,
            sent_mimes: VecDeque::new(),
            drop_performed: false,
            finished: false,
        };
        assert(texts(pending.sent_mimes@) =~= seq![]);
        Ok(pending)
    }

    /// The MIME types that are offered.
    pub fn mime_types(&self) -> (types: Vec<&str>)
        ensures
            types@.len() == self@.offers.len(),
            forall|i: int| 0 <= i < types@.len() ==> (#[trigger] types@[i])@
                == self@.offers[i].mime_type,
    {
        let mut types: Vec<&str> = Vec::new();
        for i in 0..self.offers.len()
            invariant
                types@.len() == i,
                forall|k: int| 0 <= k < i ==> (#[trigger] types@[k])@ == self.offers@[k]@.mime_type,
        {
            types.push(self.offers[i].mime_type());
        }
        types
    }

    /// The MIME types that are offered, as owned strings.
    pub fn mime_type_strings(&self) -> (types: Vec<String>)
        ensures
            texts(types@) == offered_types(self@.offers),
    {
        let mut types: Vec<String> = Vec::new();
        for i in 0..self.offers.len()
            invariant
                types@.len() == i,
                forall|k: int| 0 <= k < i ==> (#[trigger] types@[k])@ == self.offers@[k]@.mime_type,
        {
            types.push(self.offers[i].mime_type().to_owned());
        }
        assert(texts(types@) =~= offered_types(self@.offers));
        types
    }

    /// The bytes of the first offer of a MIME type.
    pub fn payload_for_mime(&self, mime_type: &str) -> (payload: Option<&[u8]>)
        ensures
            payload is Some == offered_bytes(self@.offers, mime_type@) is Some,
            payload matches Some(bytes) ==> Some(bytes@) == offered_bytes(
                self@.offers,
                mime_type@,
            ),
    {
        let ghost all = self@.offers;
        assert(all.skip(0) =~= all);
        for i in 0..self.offers.len()
            invariant
                all == offer_views(self.offers@),
                offered_bytes(all, mime_type@) == offered_bytes(all.skip(i as int), mime_type@),
        {
            assert(all.skip(i as int)[0] == self.offers@[i as int]@);
            assert(all.skip(i as int).drop_first() =~= all.skip(i + 1));
            if same_text(self.offers[i].mime_type(), mime_type) {
                return Some(self.offers[i].data());
            }
        }
        None
    }

    /// Note the MIME type that the target accepts.
    pub fn note_accepted_mime(&mut self, mime_type: Option<String>)
        ensures
            final(self)@ == (PendingView { accepted_mime: text_of(mime_type), ..old(self)@ }),
    {
        self.accepted_mime = mime_type;
    }

    /// Note that a MIME type was sent.
    pub fn note_send(&mut self, mime_type: String)
        ensures
            final(self)@ == (PendingView {
                sent_mimes: old(self)@.sent_mimes.push(mime_type@),
                ..old(self)@
            }),
    {
        self.sent_mimes.push_back(mime_type);
        assert(texts(self.sent_mimes@) =~= texts(old(self).sent_mimes@).push(mime_type@));
    }

    /// Note that the drop was performed.
    pub fn note_drop_performed(&mut self)
        ensures
            final(self)@ == (PendingView { drop_performed: true, ..old(self)@ }),
    {
        self.drop_performed = true;
    }

    /// Note that the target is done.
    pub fn note_finished(&mut self)
        ensures
            final(self)@ == (PendingView { finished: true, ..old(self)@ }),
    {
        self.finished = true;
    }

    /// Whether the target is done.
    pub fn is_finished(&self) -> (finished: bool)
        ensures
            finished == self@.finished,
    {
        self.finished
    }

    /// Note that the bytes of a MIME type were written to a pipe, when there are
    /// bytes of that type and the pipe took them.
    pub fn note_written(&mut self, mime_type: &str, written: bool)
        ensures
            final(self)@ == old(self)@.after_write(mime_type@, written),
    {
        if written && self.payload_for_mime(mime_type).is_some() {
            self.note_send(mime_type.to_owned());
        }
    }
}

impl PendingView {
    /// The drag after the bytes of a MIME type were asked for.
    pub open spec fn after_write(self, mime_type: Seq<char>, written: bool) -> PendingView {
        if written && offered_bytes(self.offers, mime_type) is Some {
            PendingView { sent_mimes: self.sent_mimes.push(mime_type), ..self }
        } else {
            self
        }
    }
}

/// Only what is offered is ever served, and it is served as it was offered.
pub proof fn served_bytes_were_offered(offers: Seq<OfferView>, mime_type: Seq<char>)
    ensures
        match offered_bytes(offers, mime_type) {
            Some(bytes) => exists|i: int|
                0 <= i < offers.len() && (#[trigger] offers[i]).mime_type == mime_type
                    && offers[i].data == bytes && forall|k: int|
                    0 <= k < i ==> (#[trigger] offers[k]).mime_type != mime_type,
            None => forall|k: int|
                0 <= k < offers.len() ==> (#[trigger] offers[k]).mime_type != mime_type,
        },
    decreases offers.len(),
{
    if offers.len() > 0 && offers[0].mime_type != mime_type {
        let rest = offers.drop_first();
        served_bytes_were_offered(rest, mime_type);
        match offered_bytes(offers, mime_type) {
            Some(bytes) => {
                let i = choose|i: int|
                    0 <= i < rest.len() && (#[trigger] rest[i]).mime_type == mime_type
                        && rest[i].data == bytes && forall|k: int|
                        0 <= k < i ==> (#[trigger] rest[k]).mime_type != mime_type;
                assert(offers[i + 1].mime_type == mime_type);
                assert forall|k: int| 0 <= k < i + 1 implies (#[trigger] offers[k]).mime_type
                    != mime_type by {
                    if k > 0 {
                        assert(rest[k - 1].mime_type != mime_type);
                    }
                }
            },
            None => {
                assert forall|k: int| 0 <= k < offers.len() implies (
                #[trigger] offers[k]).mime_type != mime_type by {
                    if k > 0 {
                        assert(rest[k - 1].mime_type != mime_type);
                    }
                }
            },
        }
    } else if offers.len() > 0 {
        assert(offers[0].mime_type == mime_type);
    }
}

/// A drag that the compositor knows by a data source.
#[derive(Debug)]
pub struct ActiveWaylandDrag {
    source: u32,
    pending: PendingWaylandDrag,
}

/// A drag that the compositor knows by a data source, as a mathematical value.
pub struct ActiveView {
    /// Protocol id of the data source.
    pub source: u32,
    pub pending: PendingView,
}

impl View for ActiveWaylandDrag {
    type V = ActiveView;

    closed spec fn view(&self) -> ActiveView {
        ActiveView { source: self.source, pending: self.pending@ }
    }
}

impl ActiveWaylandDrag {
    /// A drag whose data source was created.
    pub fn create(source: u32, pending: PendingWaylandDrag) -> (active: Self)
        ensures
            active@ == (ActiveView { source, pending: pending@ }),
    {
        ActiveWaylandDrag { source, pending }
    }

    /// Protocol id of the data source.
    pub fn source(&self) -> (source: u32)
        ensures
            source == self@.source,
    {
        self.source
    }

    /// Whether the drag is the one of a data source.
    pub fn matches_source(&self, source: u32) -> (matches: bool)
        ensures
            matches == (self@.source == source),
    {
        self.source == source
    }

    /// Note the MIME type that the target accepts.
    pub fn note_accepted_mime(&mut self, mime_type: Option<String>)
        ensures
            final(self)@ == (ActiveView {
                pending: PendingView { accepted_mime: text_of(mime_type), ..old(self)@.pending },
                ..old(self)@
            }),
    {
        self.pending.note_accepted_mime(mime_type);
    }

    /// Note that the drop was performed.
    pub fn note_drop_performed(&mut self)
        ensures
            final(self)@ == (ActiveView {
                pending: PendingView { drop_performed: true, ..old(self)@.pending },
                ..old(self)@
            }),
    {
        self.pending.note_drop_performed();
    }

    /// Note that the target is done.
    pub fn note_finished(&mut self)
        ensures
            final(self)@ == (ActiveView {
                pending: PendingView { finished: true, ..old(self)@.pending },
                ..old(self)@
            }),
    {
        self.pending.note_finished();
    }

    /// Whether the target is done.
    pub fn is_finished(&self) -> (finished: bool)
        ensures
            finished == self@.pending.finished,
    {
        self.pending.is_finished()
    }

    /// The bytes of the first offer of a MIME type.
    pub fn payload_for_mime(&self, mime_type: &str) -> (payload: Option<&[u8]>)
        ensures
            payload is Some == offered_bytes(self@.pending.offers, mime_type@) is Some,
            payload matches Some(bytes) ==> Some(bytes@) == offered_bytes(
                self@.pending.offers,
                mime_type@,
            ),
    {
        self.pending.payload_for_mime(mime_type)
    }

    /// Note that the bytes of a MIME type were written to a pipe.
    pub fn note_written(&mut self, mime_type: &str, written: bool)
        ensures
            final(self)@ == (ActiveView {
                pending: old(self)@.pending.after_write(mime_type@, written),
                ..old(self)@
            }),
    {
        self.pending.note_written(mime_type, written);
    }
}

/// A MIME type is noted as sent exactly when it is offered and the pipe took its bytes; it
/// is noted after those that were sent before, and nothing else changes.
pub proof fn only_written_offers_are_noted(
    pending: PendingView,
    mime_type: Seq<char>,
    written: bool,
    i: int,
)
    ensures
        ({
            let after = pending.after_write(mime_type, written);
            &&& written && 0 <= i < pending.offers.len() && pending.offers[i].mime_type == mime_type
                ==> after.sent_mimes == pending.sent_mimes + seq![mime_type]
            &&& !written || (forall|k: int|
                0 <= k < pending.offers.len() ==> (#[trigger] pending.offers[k]).mime_type
                    != mime_type) ==> after == pending
            &&& after.offers == pending.offers
            &&& after.accepted_mime == pending.accepted_mime
            &&& after.drop_performed == pending.drop_performed
            &&& after.finished == pending.finished
        }),
{
    served_bytes_were_offered(pending.offers, mime_type);
    assert(pending.sent_mimes.push(mime_type) =~= pending.sent_mimes + seq![mime_type]);
}

} // verus!
