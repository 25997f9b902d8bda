//! The order in which the tag readers are consulted, and how their answers
//! are merged. The caller runs the readers; each answer is handed to
//! `extract_metadata`, which says what to read next.

use vstd::prelude::*;
use crate::duration::{duration_from_tracks, probed_duration, TrackTiming};
use crate::extract::{
    album_art_from_pictures, extract_with_general, extract_with_specific, general_view,
    picture_art_text, specific_view, EmbeddedPicture, Extracted, ExtractedView, GeneralTags,
    SpecificTags,
};

verus! {

/// One way of reading a file that the resolver can ask for.
#[derive(Debug, Clone, Copy, PartialEq, Eq)]
pub enum Probe {
    /// The tags, as the general multi-format reader sees them.
    GeneralTags,
    /// The text tags, as the format-specific reader sees them.
    SpecificTags,
    /// The pictures that the format-specific reader finds.
    SpecificPictures,
    /// The playing time measured over the audio stream.
    StreamDuration,
    /// The stream figures that the container reports.
    ContainerTracks,
}

/// What a probe came back with. `None` stands for a reader that failed.
#[derive(Debug)]
pub enum ProbeReply {
    GeneralTags(Option<GeneralTags>),
    SpecificTags(Option<SpecificTags>),
    SpecificPictures(Option<Vec<EmbeddedPicture>>),
    /// Whole seconds.
    StreamDuration(Option<u64>),
    ContainerTracks(Option<Vec<TrackTiming>>),
}

/// How far the resolution of one file's metadata has come.
#[derive(Debug, PartialEq, Eq)]
pub enum Resolver {
    /// Nothing is known yet.
    AwaitGeneral,
    /// The general reader succeeded but found no album art.
    AwaitSupplementalArt(Extracted),
    /// The general reader failed.
    AwaitSpecific,
    /// The format-specific reader gave the text fields.
    AwaitSpecificArt(Extracted),
    /// The album art is settled; the playing time is not.
    AwaitStreamDuration(Extracted),
    /// The stream could not be measured.
    AwaitContainerTracks(Extracted),
    /// The fields are resolved.
    Resolved(Extracted),
}

/// A resolver state as plain mathematical values.
pub enum ResolverView {
    AwaitGeneral,
    AwaitSupplementalArt(ExtractedView),
    AwaitSpecific,
    AwaitSpecificArt(ExtractedView),
    AwaitStreamDuration(ExtractedView),
    AwaitContainerTracks(ExtractedView),
    Resolved(ExtractedView),
}

impl View for Resolver {
    type V = ResolverView;

    open spec fn view(&self) -> ResolverView {
        match *self {
            Resolver::AwaitGeneral => ResolverView::AwaitGeneral,
            Resolver::AwaitSupplementalArt(m) => ResolverView::AwaitSupplementalArt(m@),
            Resolver::AwaitSpecific => ResolverView::AwaitSpecific,
            Resolver::AwaitSpecificArt(m) => ResolverView::AwaitSpecificArt(m@),
            Resolver::AwaitStreamDuration(m) => ResolverView::AwaitStreamDuration(m@),
            Resolver::AwaitContainerTracks(m) => ResolverView::AwaitContainerTracks(m@),
            Resolver::Resolved(m) => ResolverView::Resolved(m@),
        }
    }
}

/// The probe that a state waits for; none once the resolution has ended.
pub open spec fn awaited(state: ResolverView) -> Option<Probe> {
    match state {
        ResolverView::AwaitGeneral => Some(Probe::GeneralTags),
        ResolverView::AwaitSupplementalArt(_) => Some(Probe::SpecificPictures),
        ResolverView::AwaitSpecific => Some(Probe::SpecificTags),
        ResolverView::AwaitSpecificArt(_) => Some(Probe::SpecificPictures),
        ResolverView::AwaitStreamDuration(_) => Some(Probe::StreamDuration),
        ResolverView::AwaitContainerTracks(_) => Some(Probe::ContainerTracks),
        ResolverView::Resolved(_) => None,
    }
}

/// The album art in an answer about pictures.
pub open spec fn reply_art(pictures: Option<Vec<EmbeddedPicture>>) -> Option<Seq<char>> {
    match pictures {
        Some(p) => picture_art_text(p@),
        None => None,
    }
}

/// The playing time in an answer about the container's streams.
pub open spec fn reply_duration(tracks: Option<Vec<TrackTiming>>) -> Option<u64> {
    match tracks {
        Some(t) => probed_duration(t@),
        None => None,
    }
}

/// What a file without readable tags resolves to before its playing time
/// is looked up: the title from the file's name, the placeholder artist.
pub open spec fn untagged_view(stem: Option<String>) -> ExtractedView {
    specific_view(
        (SpecificTags { title: None, artist: None, genre: None, album: None }),
        stem,
        None,
        None,
    )
}

/// The state after an answer. The general reader is asked first. Where it
/// succeeds, only missing album art is looked up elsewhere, and spliced in
/// if found. Where it fails, the format-specific reader gives the text
/// fields, its pictures the album art, and the playing time comes from the
/// stream or, failing that, from the container's figures. Where both tag
/// readers fail, the defaults stand in and only the playing time is still
/// looked up. An answer that the state does not wait for changes nothing.
pub open spec fn resolver_step(state: ResolverView, stem: Option<String>, reply: ProbeReply)
    -> ResolverView {
    match (state, reply) {
        (ResolverView::AwaitGeneral, ProbeReply::GeneralTags(Some(tags))) => {
            if general_view(tags, stem).album_art is None {
                ResolverView::AwaitSupplementalArt(general_view(tags, stem))
            } else {
                ResolverView::Resolved(general_view(tags, stem))
            }
        },
        (ResolverView::AwaitGeneral, ProbeReply::GeneralTags(None)) => ResolverView::AwaitSpecific,
        (ResolverView::AwaitSupplementalArt(m), ProbeReply::SpecificPictures(p)) => {
            if reply_art(p) is Some {
                ResolverView::Resolved(ExtractedView { album_art: reply_art(p), ..m })
            } else {
                ResolverView::Resolved(m)
            }
        },
        (ResolverView::AwaitSpecific, ProbeReply::SpecificTags(Some(tags))) => {
            ResolverView::AwaitSpecificArt(specific_view(tags, stem, None, None))
        },
        (ResolverView::AwaitSpecific, ProbeReply::SpecificTags(None)) => {
            ResolverView::AwaitStreamDuration(untagged_view(stem))
        },
        (ResolverView::AwaitSpecificArt(m), ProbeReply::SpecificPictures(p)) => {
            ResolverView::AwaitStreamDuration(ExtractedView { album_art: reply_art(p), ..m })
        },
        (ResolverView::AwaitStreamDuration(m), ProbeReply::StreamDuration(Some(secs))) => {
            ResolverView::Resolved(ExtractedView { duration: Some(secs), ..m })
        },
        (ResolverView::AwaitStreamDuration(m), ProbeReply::StreamDuration(None)) => {
            ResolverView::AwaitContainerTracks(m)
        },
        (ResolverView::AwaitContainerTracks(m), ProbeReply::ContainerTracks(t)) => {
            ResolverView::Resolved(ExtractedView { duration: reply_duration(t), ..m })
        },
        (s, _) => s,
    }
}

/// The album art among the pictures of an answer, if any.
fn art_in_reply(pictures: &Option<Vec<EmbeddedPicture>>) -> (r: Option<String>)
    ensures
        crate::track::text_of(r) == reply_art(*pictures),
{
    match pictures {
        Some(p) => match album_art_from_pictures(p) {
            Ok(uri) => Some(uri),
            Err(_) => None,
        },
        None => None,
    }
}

impl Resolver {
    /// The state in which nothing has been read yet.
    pub fn start() -> (r: Resolver)
        ensures
            r@ == ResolverView::AwaitGeneral,
    {
        Resolver::AwaitGeneral
    }

    /// What the caller is to read next; `None` once the resolution has ended.
    pub fn awaits(&self) -> (r: Option<Probe>)
        ensures
            r == awaited(self@),
    {
        match self {
            Resolver::AwaitGeneral => Some(Probe::GeneralTags),
            Resolver::AwaitSupplementalArt(_) => Some(Probe::SpecificPictures),
            Resolver::AwaitSpecific => Some(Probe::SpecificTags),
            Resolver::AwaitSpecificArt(_) => Some(Probe::SpecificPictures),
            Resolver::AwaitStreamDuration(_) => Some(Probe::StreamDuration),
            Resolver::AwaitContainerTracks(_) => Some(Probe::ContainerTracks),
            Resolver::Resolved(_) => None,
        }
    }

    /// The fields of a resolution that has ended; `None` while a probe is
    /// awaited. A resolution never ends without fields.
    pub fn outcome(self) -> (r: Option<Extracted>)
        ensures
            r == match self {
                Resolver::Resolved(m) => Some(m),
                _ => None::<Extracted>,
            },
            r is Some <==> awaited(self@) is None,
    {
        match self {
            Resolver::Resolved(m) => Some(m),
            _ => None,
        }
    }
}

/// Takes the resolution of a file's metadata one step further with the
/// answer to the probe that `state` waited for. `stem` is the file's base
/// name without its extension, where it has one.
pub fn extract_metadata(state: Resolver, stem: &Option<String>, reply: ProbeReply) -> (next:
    Resolver)
    ensures
        next@ == resolver_step(state@, *stem, reply),
{
    match (state, reply) {
        (Resolver::AwaitGeneral, ProbeReply::GeneralTags(Some(tags))) => {
            let fields = extract_with_general(tags, stem);
            if fields.album_art.is_none() {
                Resolver::AwaitSupplementalArt(fields)
            } else {
                Resolver::Resolved(fields)
            }
        },
        (Resolver::AwaitGeneral, ProbeReply::GeneralTags(None)) => Resolver::AwaitSpecific,
        (Resolver::AwaitSupplementalArt(fields), ProbeReply::SpecificPictures(p)) => {
            let mut fields = fields;
            match art_in_reply(&p) {
                Some(art) => {
                    fields.album_art = Some(art);
                },
                None => {},
            }
            Resolver::Resolved(fields)
        },
        (Resolver::AwaitSpecific, ProbeReply::SpecificTags(Some(tags))) => {
            Resolver::AwaitSpecificArt(extract_with_specific(tags, stem, None, None))
        },
        (Resolver::AwaitSpecific, ProbeReply::SpecificTags(None)) => {
            let tags = SpecificTags { title: None, artist: None, genre: None, album: None };
            Resolver::AwaitStreamDuration(extract_with_specific(tags, stem, None, None))
        },
        (Resolver::AwaitSpecificArt(fields), ProbeReply::SpecificPictures(p)) => {
            let mut fields = fields;
            fields.album_art = art_in_reply(&p);
            Resolver::AwaitStreamDuration(fields)
        },
        (Resolver::AwaitStreamDuration(fields), ProbeReply::StreamDuration(Some(secs))) => {
            let mut fields = fields;
            fields.duration = Some(secs);
            Resolver::Resolved(fields)
        },
        (Resolver::AwaitStreamDuration(fields), ProbeReply::StreamDuration(None)) => {
            Resolver::AwaitContainerTracks(fields)
        },
        (Resolver::AwaitContainerTracks(fields), ProbeReply::ContainerTracks(t)) => {
            let mut fields = fields;
            fields.duration = match &t {
                Some(tracks) => match duration_from_tracks(tracks) {
                    Ok(secs) => Some(secs),
                    Err(_) => None,
                },
                None => None,
            };
            Resolver::Resolved(fields)
        },
        (s, _) => s,
    }
}

/// The probe that a reply answers.
pub open spec fn reply_kind(reply: ProbeReply) -> Probe {
    match reply {
        ProbeReply::GeneralTags(_) => Probe::GeneralTags,
        ProbeReply::SpecificTags(_) => Probe::SpecificTags,
        ProbeReply::SpecificPictures(_) => Probe::SpecificPictures,
        ProbeReply::StreamDuration(_) => Probe::StreamDuration,
        ProbeReply::ContainerTracks(_) => Probe::ContainerTracks,
    }
}

/// The most probes that a state can still ask for.
pub open spec fn probes_left(state: ResolverView) -> nat {
    match state {
        ResolverView::AwaitGeneral => 5,
        ResolverView::AwaitSpecific => 4,
        ResolverView::AwaitSpecificArt(_) => 3,
        ResolverView::AwaitStreamDuration(_) => 2,
        ResolverView::AwaitContainerTracks(_) => 1,
        ResolverView::AwaitSupplementalArt(_) => 1,
        ResolverView::Resolved(_) => 0,
    }
}

/// The fields that a state has gathered so far.
pub open spec fn fields_of(state: ResolverView) -> Option<ExtractedView> {
    match state {
        ResolverView::AwaitSupplementalArt(m) => Some(m),
        ResolverView::AwaitSpecificArt(m) => Some(m),
        ResolverView::AwaitStreamDuration(m) => Some(m),
        ResolverView::AwaitContainerTracks(m) => Some(m),
        ResolverView::Resolved(m) => Some(m),
        _ => None,
    }
}

/// Every answer to the probe that was asked for brings the resolution
/// closer to its end: it ends after five probes at most.
pub proof fn lemma_answer_advances(state: ResolverView, stem: Option<String>, reply: ProbeReply)
    requires
        awaited(state) == Some(reply_kind(reply)),
    ensures
        probes_left(resolver_step(state, stem, reply)) < probes_left(state),
        awaited(resolver_step(state, stem, reply)) is None <==> probes_left(
            resolver_step(state, stem, reply),
        ) == 0,
{
}

/// Missing metadata never makes a resolution fail: a state that awaits no
/// probe holds resolved fields, and a file in which neither tag reader
/// finds a tag goes on with its file name as title and the placeholder as
/// artist.
pub proof fn lemma_untagged_file_gets_defaults(state: ResolverView, stem: Option<String>)
    ensures
        awaited(state) is None ==> state is Resolved,
        resolver_step(ResolverView::AwaitGeneral, stem, ProbeReply::GeneralTags(None))
            == ResolverView::AwaitSpecific,
        fields_of(
            resolver_step(ResolverView::AwaitSpecific, stem, ProbeReply::SpecificTags(None)),
        ) == Some(untagged_view(stem)),
        untagged_view(stem).title == match stem {
            Some(s) => s@,
            None => "Unknown Title"@,
        },
        untagged_view(stem).artist == "Unknown Artist"@,
{
}

/// Title, artist, genre and album come from one reader: once a state
/// holds them, no answer changes them, and only album art and playing time
/// are still filled in.
pub proof fn lemma_text_fields_are_kept(
    state: ResolverView,
    stem: Option<String>,
    reply: ProbeReply,
)
    requires
        fields_of(state) is Some,
    ensures
        fields_of(resolver_step(state, stem, reply)) is Some,
        fields_of(resolver_step(state, stem, reply)).unwrap().title == fields_of(
            state,
        ).unwrap().title,
        fields_of(resolver_step(state, stem, reply)).unwrap().artist == fields_of(
            state,
        ).unwrap().artist,
        fields_of(resolver_step(state, stem, reply)).unwrap().genre == fields_of(
            state,
        ).unwrap().genre,
        fields_of(resolver_step(state, stem, reply)).unwrap().album == fields_of(
            state,
        ).unwrap().album,
{
}

} // verus!
