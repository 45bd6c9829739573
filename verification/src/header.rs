//! The header block of a cue sheet: the lines that describe the release as a
//! whole and are the same on every medium.
//!
//! Each line is written or left out by a rule of its own, and the lines that
//! are written come in a fixed order: performer, genres, date, labels,
//! catalog identifier, file.

use vstd::prelude::*;
use crate::date::{date_comment_text, DateModel};
use crate::release::{ArtistCredit, ArtistCreditModel, Release, ReleaseGroupModel, ReleaseModel};
use crate::text::{join_texts, joined_text, push_line};

verus! {

/// One credit as text: the name, with the join phrase, if any, right behind it.
pub open spec fn credit_text(credit: ArtistCreditModel) -> Seq<char> {
    credit.name + match credit.join_phrase {
        Some(phrase) => phrase,
        None => Seq::empty(),
    }
}

/// The credits as one text: each credit in order, nothing put between them
/// but what the join phrases hold.
pub open spec fn credits_text(credits: Seq<ArtistCreditModel>) -> Seq<char>
    decreases credits.len(),
{
    if credits.len() == 0 {
        Seq::empty()
    } else {
        credits_text(credits.drop_last()) + credit_text(credits.last())
    }
}

/// The `PERFORMER` line of the release.
pub open spec fn performer_line(credits: Seq<ArtistCreditModel>) -> Seq<char> {
    "PERFORMER \""@ + credits_text(credits) + "\""@
}

/// The genre comment: the genre names in order, joined by `"; "`.
pub open spec fn genre_line(genres: Seq<Seq<char>>) -> Seq<char> {
    "REM GENRE "@ + joined_text(genres, "; "@)
}

/// The date comment.
pub open spec fn date_line(date: DateModel) -> Seq<char> {
    "REM DATE "@ + date_comment_text(date)
}

/// The comment that names a label.
pub open spec fn label_line(name: Seq<char>) -> Seq<char> {
    "REM COMMENT \""@ + name + "\""@
}

/// The comment that carries the catalog's identifier of the release.
pub open spec fn id_line(id: Seq<char>) -> Seq<char> {
    "REM MUSICBRAINZ_ALBUM_ID "@ + id
}

/// The declaration of the audio file, the same for every release.
pub open spec fn file_line() -> Seq<char> {
    "FILE \"CDImage.flac\" WAVE"@
}

/// The performer line, written only where the release has artist credits.
pub open spec fn performer_lines(credits: Seq<ArtistCreditModel>) -> Seq<Seq<char>> {
    if credits.len() > 0 {
        seq![performer_line(credits)]
    } else {
        Seq::empty()
    }
}

/// The genre comment, written only where there is a release group with at
/// least one genre.
pub open spec fn genre_lines(group: Option<ReleaseGroupModel>) -> Seq<Seq<char>> {
    match group {
        Some(g) => if g.genres.len() > 0 {
            seq![genre_line(g.genres)]
        } else {
            Seq::empty()
        },
        None => Seq::empty(),
    }
}

/// The date comment, written only where there is a release group with a date.
pub open spec fn date_lines(group: Option<ReleaseGroupModel>) -> Seq<Seq<char>> {
    match group {
        Some(g) => match g.first_release_date {
            Some(date) => seq![date_line(date)],
            None => Seq::empty(),
        },
        None => Seq::empty(),
    }
}

/// Whether the entry `i` has a label comment written for it: it names a
/// label, the name is not empty, and no earlier entry has the same name.
pub open spec fn names_new_label(label_infos: Seq<Option<Seq<char>>>, i: int) -> bool {
    &&& label_infos[i] is Some
    &&& label_infos[i]->0.len() > 0
    &&& forall|j: int| 0 <= j < i ==> label_infos[j] != label_infos[i]
}

/// The label comments: one for each distinct non-empty label name, in the
/// order in which the names first occur.
pub open spec fn label_lines(label_infos: Seq<Option<Seq<char>>>) -> Seq<Seq<char>>
    decreases label_infos.len(),
{
    if label_infos.len() == 0 {
        Seq::empty()
    } else {
        let before = label_lines(label_infos.drop_last());
        if names_new_label(label_infos, label_infos.len() - 1) {
            before.push(label_line(label_infos.last()->0))
        } else {
            before
        }
    }
}

/// The header block of a release.
pub open spec fn header_lines(release: ReleaseModel) -> Seq<Seq<char>> {
    performer_lines(release.artist_credits) + genre_lines(release.release_group) + date_lines(
        release.release_group,
    ) + label_lines(release.label_infos) + seq![id_line(release.id), file_line()]
}

/// Joins artist credits into one performer text.
pub fn join_artists(artists: &[ArtistCredit]) -> (r: String)
    ensures
        r@ == credits_text(artists.deep_view()),
{
    let mut out = String::new();
    let mut i: usize = 0;
    while i < artists.len()
        invariant
            i <= artists.len(),
            out@ == credits_text(artists.deep_view().take(i as int)),
        decreases artists.len() - i,
    {
        let credit = &artists[i];
        out.append(credit.name.as_str());
        match &credit.join_phrase {
            Some(phrase) => {
                out.append(phrase.as_str());
            },
            None => {},
        }
        assert(artists.deep_view().take(i + 1).drop_last() =~= artists.deep_view().take(i as int));
        i += 1;
    }
    assert(artists.deep_view().take(artists.len() as int) =~= artists.deep_view());
    out
}

/// Whether an entry before `i` names the same label as entry `i`.
fn label_seen_before(release: &Release, i: usize) -> (r: bool)
    requires
        i < release.label_infos.len(),
        release.label_infos[i as int].label is Some,
    ensures
        r == !(forall|j: int|
            0 <= j < i ==> release@.label_infos[j] != release@.label_infos[i as int]),
{
    let name = match &release.label_infos[i].label {
        Some(label) => &label.name,
        None => {
            return false;
        },
    };
    let mut j: usize = 0;
    while j < i
        invariant
            j <= i < release.label_infos.len(),
            release.label_infos[i as int].label is Some,
            name@ == release.label_infos[i as int].label->0.name@,
            forall|k: int| 0 <= k < j ==> release@.label_infos[k] != release@.label_infos[i as int],
        decreases i - j,
    {
        match &release.label_infos[j].label {
            Some(earlier) => {
                if earlier.name == *name {
                    assert(release@.label_infos[j as int] == release@.label_infos[i as int]);
                    return true;
                }
            },
            None => {},
        }
        j += 1;
    }
    false
}

/// Builds the header block of a release: the lines that every cue sheet of
/// the release starts with.
pub fn release_header(release: &Release) -> (r: Vec<String>)
    ensures
        r.deep_view() == header_lines(release@),
{
    let mut lines: Vec<String> = Vec::new();

    if release.artist_credits.len() > 0 {
        let mut line = String::new();
        line.append("PERFORMER \"");
        line.append(join_artists(release.artist_credits.as_slice()).as_str());
        line.append("\"");
        push_line(&mut lines, line);
    }

    match &release.release_group {
        Some(group) => {
            if group.genres.len() > 0 {
                let mut names: Vec<String> = Vec::new();
                let mut g: usize = 0;
                while g < group.genres.len()
                    invariant
                        g <= group.genres.len(),
                        names.deep_view() =~= group.genres.deep_view().take(g as int),
                    decreases group.genres.len() - g,
                {
                    let name = group.genres[g].name.clone();
                    push_line(&mut names, name);
                    g += 1;
                }
                assert(names.deep_view() =~= group.genres.deep_view());
                let mut line = String::new();
                line.append("REM GENRE ");
                line.append(join_texts(&names, "; ").as_str());
                push_line(&mut lines, line);
            }
            match &group.first_release_date {
                Some(date) => {
                    let mut line = String::new();
                    line.append("REM DATE ");
                    line.append(date.comment_text().as_str());
                    push_line(&mut lines, line);
                },
                None => {},
            }
        },
        None => {},
    }
    let ghost before_labels = lines.deep_view();

    let mut i: usize = 0;
    while i < release.label_infos.len()
        invariant
            i <= release.label_infos.len(),
            lines.deep_view() =~= before_labels + label_lines(release@.label_infos.take(i as int)),
        decreases release.label_infos.len() - i,
    {
        let ghost infos = release@.label_infos;
        proof {
            assert(infos.take(i + 1).drop_last() =~= infos.take(i as int));
            let prefix = infos.take(i + 1);
            assert forall|j: int| 0 <= j < i implies (prefix[j] != prefix[i as int]) == (infos[j]
                != infos[i as int]) by {}
        }
        match &release.label_infos[i].label {
            Some(label) => {
                if !label.name.as_str().is_empty() && !label_seen_before(release, i) {
                    let mut line = String::new();
                    line.append("REM COMMENT \"");
                    line.append(label.name.as_str());
                    line.append("\"");
                    push_line(&mut lines, line);
                }
            },
            None => {},
        }
        i += 1;
    }
    assert(release@.label_infos.take(release.label_infos.len() as int) =~= release@.label_infos);

    let mut id = String::new();
    id.append("REM MUSICBRAINZ_ALBUM_ID ");
    id.append(release.id.as_str());
    push_line(&mut lines, id);
    let mut file = String::new();
    file.append("FILE \"CDImage.flac\" WAVE");
    push_line(&mut lines, file);
    lines
}

} // verus!
