//! Release metadata as the catalog supplies it, and its mathematical model.
//!
//! Each type has a deep view: text becomes a sequence of characters, a list a
//! sequence, a number a `nat`. The contracts of the library are stated over
//! these models.

use vstd::prelude::*;
use crate::date::{DateModel, ReleaseDate};

verus! {

/// One credited artist: the name as credited, and the text that joins it to
/// the next credit.
#[derive(Clone, Debug)]
pub struct ArtistCredit {
    pub name: String,
    pub join_phrase: Option<String>,
}

/// The model of an [`ArtistCredit`].
pub struct ArtistCreditModel {
    pub name: Seq<char>,
    pub join_phrase: Option<Seq<char>>,
}

impl DeepView for ArtistCredit {
    type V = ArtistCreditModel;

    open spec fn deep_view(&self) -> ArtistCreditModel {
        ArtistCreditModel { name: self.name@, join_phrase: self.join_phrase.deep_view() }
    }
}

impl View for ArtistCredit {
    type V = ArtistCreditModel;

    open spec fn view(&self) -> ArtistCreditModel {
        self.deep_view()
    }
}

/// A genre; its model is its name.
#[derive(Clone, Debug)]
pub struct Genre {
    pub name: String,
}

impl DeepView for Genre {
    type V = Seq<char>;

    open spec fn deep_view(&self) -> Seq<char> {
        self.name@
    }
}

impl View for Genre {
    type V = Seq<char>;

    open spec fn view(&self) -> Seq<char> {
        self.deep_view()
    }
}

/// The release group of a release: the abstract work that the release is an
/// edition of.
#[derive(Clone, Debug)]
pub struct ReleaseGroup {
    pub genres: Vec<Genre>,
    pub first_release_date: Option<ReleaseDate>,
}

/// The model of a [`ReleaseGroup`]: the names of its genres, and its date.
pub struct ReleaseGroupModel {
    pub genres: Seq<Seq<char>>,
    pub first_release_date: Option<DateModel>,
}

impl DeepView for ReleaseGroup {
    type V = ReleaseGroupModel;

    open spec fn deep_view(&self) -> ReleaseGroupModel {
        ReleaseGroupModel {
            genres: self.genres.deep_view(),
            first_release_date: self.first_release_date.deep_view(),
        }
    }
}

impl View for ReleaseGroup {
    type V = ReleaseGroupModel;

    open spec fn view(&self) -> ReleaseGroupModel {
        self.deep_view()
    }
}

/// A record label; its model is its name.
#[derive(Clone, Debug)]
pub struct Label {
    pub name: String,
}

impl DeepView for Label {
    type V = Seq<char>;

    open spec fn deep_view(&self) -> Seq<char> {
        self.name@
    }
}

impl View for Label {
    type V = Seq<char>;

    open spec fn view(&self) -> Seq<char> {
        self.deep_view()
    }
}

/// One label entry of a release; the label itself may be missing. Its model
/// is the label's name, if there is a label.
#[derive(Clone, Debug)]
pub struct LabelInfo {
    pub label: Option<Label>,
}

impl DeepView for LabelInfo {
    type V = Option<Seq<char>>;

    open spec fn deep_view(&self) -> Option<Seq<char>> {
        self.label.deep_view()
    }
}

impl View for LabelInfo {
    type V = Option<Seq<char>>;

    open spec fn view(&self) -> Option<Seq<char>> {
        self.deep_view()
    }
}

/// One track of a medium.
#[derive(Clone, Debug)]
pub struct Track {
    /// The track's number on its medium, from 1.
    pub position: u32,
    pub title: String,
    /// The artists credited on the recording, where they are known.
    pub recording_artist_credits: Option<Vec<ArtistCredit>>,
    /// The track's length in milliseconds, where it is known.
    pub length_ms: Option<u32>,
}

/// The model of a [`Track`].
pub struct TrackModel {
    pub position: nat,
    pub title: Seq<char>,
    pub recording_artist_credits: Option<Seq<ArtistCreditModel>>,
    pub length_ms: Option<nat>,
}

impl DeepView for Track {
    type V = TrackModel;

    open spec fn deep_view(&self) -> TrackModel {
        TrackModel {
            position: self.position as nat,
            title: self.title@,
            recording_artist_credits: self.recording_artist_credits.deep_view(),
            length_ms: match self.length_ms {
                Some(ms) => Some(ms as nat),
                None => None,
            },
        }
    }
}

impl View for Track {
    type V = TrackModel;

    open spec fn view(&self) -> TrackModel {
        self.deep_view()
    }
}

/// One medium (disc) of a release.
#[derive(Clone, Debug)]
pub struct Medium {
    /// The kind of medium, such as `CD`.
    pub format: Option<String>,
    /// The medium's number within the release, from 1.
    pub position: Option<u32>,
    /// The medium's own subtitle.
    pub title: Option<String>,
    pub tracks: Vec<Track>,
}

/// The model of a [`Medium`].
pub struct MediumModel {
    pub format: Option<Seq<char>>,
    pub position: Option<nat>,
    pub title: Option<Seq<char>>,
    pub tracks: Seq<TrackModel>,
}

impl DeepView for Medium {
    type V = MediumModel;

    open spec fn deep_view(&self) -> MediumModel {
        MediumModel {
            format: self.format.deep_view(),
            position: match self.position {
                Some(p) => Some(p as nat),
                None => None,
            },
            title: self.title.deep_view(),
            tracks: self.tracks.deep_view(),
        }
    }
}

impl View for Medium {
    type V = MediumModel;

    open spec fn view(&self) -> MediumModel {
        self.deep_view()
    }
}

/// A release: one published edition, with its media.
#[derive(Clone, Debug)]
pub struct Release {
    /// The catalog's identifier of the release.
    pub id: String,
    pub title: String,
    pub artist_credits: Vec<ArtistCredit>,
    pub release_group: Option<ReleaseGroup>,
    pub label_infos: Vec<LabelInfo>,
    pub media: Vec<Medium>,
}

/// The model of a [`Release`].
pub struct ReleaseModel {
    pub id: Seq<char>,
    pub title: Seq<char>,
    pub artist_credits: Seq<ArtistCreditModel>,
    pub release_group: Option<ReleaseGroupModel>,
    pub label_infos: Seq<Option<Seq<char>>>,
    pub media: Seq<MediumModel>,
}

impl DeepView for Release {
    type V = ReleaseModel;

    open spec fn deep_view(&self) -> ReleaseModel {
        ReleaseModel {
            id: self.id@,
            title: self.title@,
            artist_credits: self.artist_credits.deep_view(),
            release_group: self.release_group.deep_view(),
            label_infos: self.label_infos.deep_view(),
            media: self.media.deep_view(),
        }
    }
}

impl View for Release {
    type V = ReleaseModel;

    open spec fn view(&self) -> ReleaseModel {
        self.deep_view()
    }
}

} // verus!
