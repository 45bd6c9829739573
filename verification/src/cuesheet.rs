//! The cue sheet of one medium, and the cue sheets of a release.
//!
//! A cue sheet holds the header block of the release, the title line of the
//! medium, and one block per track. A track starts where the tracks before it
//! on the same medium end: its `INDEX 01` line carries the sum of their
//! lengths as a timecode. Offsets start at zero on every medium.

use vstd::prelude::*;
use crate::header::{credits_text, header_lines, join_artists, release_header};
use crate::release::{Medium, MediumModel, Release, ReleaseModel, Track, TrackModel};
use crate::text::{decimal_text, push_decimal, push_line, push_two_digits, two_digit_text};
use crate::timecode::{timecode_text, to_timecode};

verus! {

/// The block of one track.
#[derive(Clone, Debug)]
pub struct TrackBlock {
    pub track_line: String,
    pub title_line: String,
    /// Present only where the track has artist credits of its own.
    pub performer_line: Option<String>,
    pub index_line: String,
}

/// The model of a [`TrackBlock`].
pub struct TrackBlockModel {
    pub track_line: Seq<char>,
    pub title_line: Seq<char>,
    pub performer_line: Option<Seq<char>>,
    pub index_line: Seq<char>,
}

impl DeepView for TrackBlock {
    type V = TrackBlockModel;

    open spec fn deep_view(&self) -> TrackBlockModel {
        TrackBlockModel {
            track_line: self.track_line@,
            title_line: self.title_line@,
            performer_line: self.performer_line.deep_view(),
            index_line: self.index_line@,
        }
    }
}

impl View for TrackBlock {
    type V = TrackBlockModel;

    open spec fn view(&self) -> TrackBlockModel {
        self.deep_view()
    }
}

/// The cue sheet of one medium.
#[derive(Clone, Debug)]
pub struct Cuesheet {
    /// The medium's identifier, which names the cue sheet.
    pub medium_id: String,
    pub header: Vec<String>,
    pub title_line: String,
    pub tracks: Vec<TrackBlock>,
}

/// The model of a [`Cuesheet`].
pub struct CuesheetModel {
    pub medium_id: Seq<char>,
    pub header: Seq<Seq<char>>,
    pub title_line: Seq<char>,
    pub tracks: Seq<TrackBlockModel>,
}

impl DeepView for Cuesheet {
    type V = CuesheetModel;

    open spec fn deep_view(&self) -> CuesheetModel {
        CuesheetModel {
            medium_id: self.medium_id@,
            header: self.header.deep_view(),
            title_line: self.title_line@,
            tracks: self.tracks.deep_view(),
        }
    }
}

impl View for Cuesheet {
    type V = CuesheetModel;

    open spec fn view(&self) -> CuesheetModel {
        self.deep_view()
    }
}

/// A track whose length is needed and not known.
#[derive(Clone, Copy, Debug, PartialEq, Eq)]
pub enum CuesheetError {
    MissingTrackLength { track_index: usize },
}

/// A medium of a release for which no cue sheet can be built.
#[derive(Clone, Copy, Debug, PartialEq, Eq)]
pub struct ReleaseError {
    pub medium_index: usize,
    pub cause: CuesheetError,
}

/// What is said of a track whose length is needed and not known; tracks are
/// counted from 1.
pub open spec fn cuesheet_error_text(error: CuesheetError) -> Seq<char> {
    match error {
        CuesheetError::MissingTrackLength { track_index } => "track "@ + decimal_text(
            (track_index + 1) as nat,
        ) + " has no length"@,
    }
}

/// What is said of a release for which no cue sheets can be built; media are
/// counted from 1.
pub open spec fn release_error_text(error: ReleaseError) -> Seq<char> {
    "medium "@ + decimal_text((error.medium_index + 1) as nat) + ": "@ + cuesheet_error_text(
        error.cause,
    )
}

impl CuesheetError {
    /// The error as a message for the user.
    pub fn message(&self) -> (r: String)
        ensures
            r@ == cuesheet_error_text(*self),
    {
        match self {
            CuesheetError::MissingTrackLength { track_index } => {
                let mut out = String::new();
                out.append("track ");
                push_decimal(&mut out, *track_index as u128 + 1);
                out.append(" has no length");
                out
            },
        }
    }
}

impl ReleaseError {
    /// The error as a message for the user.
    pub fn message(&self) -> (r: String)
        ensures
            r@ == release_error_text(*self),
    {
        let mut out = String::new();
        out.append("medium ");
        push_decimal(&mut out, self.medium_index as u128 + 1);
        out.append(": ");
        out.append(self.cause.message().as_str());
        out
    }
}

/// The identifier of a medium: its format, a space, and its position in two
/// digits. A medium without a format has the empty format, one without a
/// position the position 0.
pub open spec fn medium_identifier(medium: MediumModel) -> Seq<char> {
    (match medium.format {
        Some(format) => format,
        None => Seq::empty(),
    }) + " "@ + two_digit_text(
        match medium.position {
            Some(position) => position,
            None => 0,
        },
    )
}

/// What the title line adds for a release of several media: the medium's
/// identifier.
pub open spec fn medium_suffix(medium: MediumModel, is_multi_disc: bool) -> Seq<char> {
    if is_multi_disc {
        "- "@ + medium_identifier(medium)
    } else {
        Seq::empty()
    }
}

/// What the title line adds for a medium with a non-empty title of its own.
pub open spec fn subtitle_suffix(medium: MediumModel) -> Seq<char> {
    match medium.title {
        Some(title) => if title.len() > 0 {
            ": "@ + title
        } else {
            Seq::empty()
        },
        None => Seq::empty(),
    }
}

/// The title line of a medium's cue sheet.
pub open spec fn medium_title_line(
    release_title: Seq<char>,
    medium: MediumModel,
    is_multi_disc: bool,
) -> Seq<char> {
    "TITLE \""@ + release_title + medium_suffix(medium, is_multi_disc) + subtitle_suffix(medium)
        + "\""@
}

/// A track's length as far as it is known: zero where it is not.
pub open spec fn known_length(track: TrackModel) -> nat {
    match track.length_ms {
        Some(ms) => ms,
        None => 0,
    }
}

/// The start of track `k` (from 0) in milliseconds: the sum of the lengths of
/// the tracks before it on the medium, as far as they are known.
pub open spec fn track_start(tracks: Seq<TrackModel>, k: int) -> nat
    decreases k,
{
    if k <= 0 {
        0
    } else {
        track_start(tracks, k - 1) + known_length(tracks[k - 1])
    }
}

/// The sum of the lengths of the tracks before track `k` (from 0), each of
/// them known.
pub open spec fn sum_of_lengths(tracks: Seq<TrackModel>, k: int) -> nat
    decreases k,
{
    if k <= 0 {
        0
    } else {
        sum_of_lengths(tracks, k - 1) + tracks[k - 1].length_ms->0
    }
}

/// The number of leading tracks whose length has to be known: all of them, or
/// all but the last.
pub open spec fn lengths_needed(tracks: Seq<TrackModel>, last_track_too: bool) -> int {
    if last_track_too || tracks.len() == 0 {
        tracks.len() as int
    } else {
        tracks.len() - 1
    }
}

/// Whether the lengths of the first `count` tracks are known.
pub open spec fn lengths_known(tracks: Seq<TrackModel>, count: int) -> bool {
    forall|i: int| 0 <= i < count ==> (#[trigger] tracks[i]).length_ms is Some
}

/// Whether `track_index` is the first of the first `count` tracks whose
/// length is not known.
pub open spec fn first_unknown_length(
    tracks: Seq<TrackModel>,
    count: int,
    track_index: int,
) -> bool {
    &&& 0 <= track_index < count
    &&& tracks[track_index].length_ms is None
    &&& lengths_known(tracks, track_index)
}

/// The line that opens a track's block.
pub open spec fn track_line(track: TrackModel) -> Seq<char> {
    "  TRACK "@ + two_digit_text(track.position) + " AUDIO"@
}

/// The title line of a track.
pub open spec fn track_title_line(track: TrackModel) -> Seq<char> {
    "    TITLE \""@ + track.title + "\""@
}

/// Whether a track has artist credits of its own.
pub open spec fn has_credits(track: TrackModel) -> bool {
    track.recording_artist_credits is Some && track.recording_artist_credits->0.len() > 0
}

/// The performer line of a track: none where the track has no credits.
pub open spec fn track_performer_line(track: TrackModel) -> Option<Seq<char>> {
    if has_credits(track) {
        Some("    PERFORMER \""@ + credits_text(track.recording_artist_credits->0) + "\""@)
    } else {
        None
    }
}

/// The index line of a track that starts at `start_ms`.
pub open spec fn index_line(start_ms: nat) -> Seq<char> {
    "    INDEX 01 "@ + timecode_text(start_ms)
}

/// The block of track `k` (from 0) of a medium.
pub open spec fn track_block(tracks: Seq<TrackModel>, k: int) -> TrackBlockModel {
    TrackBlockModel {
        track_line: track_line(tracks[k]),
        title_line: track_title_line(tracks[k]),
        performer_line: track_performer_line(tracks[k]),
        index_line: index_line(track_start(tracks, k)),
    }
}

/// The blocks of a medium's tracks, in the order of the tracks.
pub open spec fn track_blocks(tracks: Seq<TrackModel>) -> Seq<TrackBlockModel> {
    Seq::new(tracks.len(), |k: int| track_block(tracks, k))
}

/// The cue sheet of a medium.
pub open spec fn cuesheet(
    header: Seq<Seq<char>>,
    medium: MediumModel,
    is_multi_disc: bool,
    release_title: Seq<char>,
) -> CuesheetModel {
    CuesheetModel {
        medium_id: medium_identifier(medium),
        header,
        title_line: medium_title_line(release_title, medium, is_multi_disc),
        tracks: track_blocks(medium.tracks),
    }
}

/// The cue sheets of a release, one per medium and in the order of the media.
/// The medium's identifier enters the title line where the release has more
/// than one medium.
pub open spec fn release_sheets(release: ReleaseModel) -> Seq<CuesheetModel> {
    Seq::new(
        release.media.len(),
        |i: int|
            cuesheet(
                header_lines(release),
                release.media[i],
                release.media.len() > 1,
                release.title,
            ),
    )
}

/// The number of leading tracks of medium `i` whose length a release owes:
/// every track but the last track of the last medium.
pub open spec fn release_lengths_needed(release: ReleaseModel, i: int) -> int {
    lengths_needed(release.media[i].tracks, i + 1 < release.media.len())
}

/// Whether the media before medium `count` have all the lengths that the
/// release owes for them.
pub open spec fn media_complete(release: ReleaseModel, count: int) -> bool {
    forall|i: int|
        0 <= i < count ==> lengths_known(
            (#[trigger] release.media[i]).tracks,
            release_lengths_needed(release, i),
        )
}

/// The lines of a track's block.
pub open spec fn block_lines(block: TrackBlockModel) -> Seq<Seq<char>> {
    seq![block.track_line, block.title_line] + (match block.performer_line {
        Some(line) => seq![line],
        None => Seq::empty(),
    }) + seq![block.index_line]
}

/// The lines of the blocks, block after block.
pub open spec fn blocks_lines(blocks: Seq<TrackBlockModel>) -> Seq<Seq<char>>
    decreases blocks.len(),
{
    if blocks.len() == 0 {
        Seq::empty()
    } else {
        blocks_lines(blocks.drop_last()) + block_lines(blocks.last())
    }
}

/// The lines of a cue sheet: the header block, the title line, the track
/// blocks.
pub open spec fn cuesheet_lines(sheet: CuesheetModel) -> Seq<Seq<char>> {
    sheet.header + seq![sheet.title_line] + blocks_lines(sheet.tracks)
}

/// The lines as one text, a line feed after each.
pub open spec fn lines_text(lines: Seq<Seq<char>>) -> Seq<char>
    decreases lines.len(),
{
    if lines.len() == 0 {
        Seq::empty()
    } else {
        lines_text(lines.drop_last()) + lines.last() + seq!['\n']
    }
}

/// The name of the file that holds the cue sheet.
pub open spec fn cuesheet_file_name(sheet: CuesheetModel) -> Seq<char> {
    sheet.medium_id + ".cue"@
}

/// Builds the identifier of a medium.
pub fn medium_id(medium: &Medium) -> (r: String)
    ensures
        r@ == medium_identifier(medium@),
{
    let mut out = String::new();
    match &medium.format {
        Some(format) => {
            out.append(format.as_str());
        },
        None => {},
    }
    out.append(" ");
    let position: u32 = match medium.position {
        Some(p) => p,
        None => 0,
    };
    push_two_digits(&mut out, position as u128);
    out
}

/// Builds the title line of a medium's cue sheet.
pub fn title_line(release_title: &str, medium: &Medium, is_multi_disc: bool) -> (r: String)
    ensures
        r@ == medium_title_line(release_title@, medium@, is_multi_disc),
{
    let mut out = String::new();
    out.append("TITLE \"");
    out.append(release_title);
    if is_multi_disc {
        out.append("- ");
        out.append(medium_id(medium).as_str());
    }
    match &medium.title {
        Some(title) => {
            if !title.as_str().is_empty() {
                out.append(": ");
                out.append(title.as_str());
            }
        },
        None => {},
    }
    out.append("\"");
    out
}

/// Builds the block of a track that starts at `start_ms`.
fn build_block(track: &Track, start_ms: u128) -> (r: TrackBlock)
    ensures
        r@.track_line == track_line(track@),
        r@.title_line == track_title_line(track@),
        r@.performer_line == track_performer_line(track@),
        r@.index_line == index_line(start_ms as nat),
{
    let mut number = String::new();
    number.append("  TRACK ");
    push_two_digits(&mut number, track.position as u128);
    number.append(" AUDIO");

    let mut title = String::new();
    title.append("    TITLE \"");
    title.append(track.title.as_str());
    title.append("\"");

    let performer = match &track.recording_artist_credits {
        Some(credits) => {
            if credits.len() > 0 {
                let mut line = String::new();
                line.append("    PERFORMER \"");
                line.append(join_artists(credits.as_slice()).as_str());
                line.append("\"");
                Some(line)
            } else {
                None
            }
        },
        None => None,
    };

    let mut index = String::new();
    index.append("    INDEX 01 ");
    index.append(to_timecode(start_ms).as_str());

    TrackBlock {
        track_line: number,
        title_line: title,
        performer_line: performer,
        index_line: index,
    }
}

/// Builds the blocks of a medium's tracks. The lengths of all tracks, or of
/// all but the last, have to be known.
fn build_blocks(tracks: &Vec<Track>, last_track_too: bool) -> (r: Result<
    Vec<TrackBlock>,
    CuesheetError,
>)
    ensures
        match r {
            Ok(blocks) => {
                &&& lengths_known(
                    tracks.deep_view(),
                    lengths_needed(tracks.deep_view(), last_track_too),
                )
                &&& blocks.deep_view() == track_blocks(tracks.deep_view())
            },
            Err(CuesheetError::MissingTrackLength { track_index }) => first_unknown_length(
                tracks.deep_view(),
                lengths_needed(tracks.deep_view(), last_track_too),
                track_index as int,
            ),
        },
{
    let ghost model = tracks.deep_view();
    let needed: usize = if last_track_too || tracks.len() == 0 {
        tracks.len()
    } else {
        tracks.len() - 1
    };
    let mut blocks: Vec<TrackBlock> = Vec::new();
    let mut start_ms: u128 = 0;
    let mut k: usize = 0;
    while k < tracks.len()
        invariant
            k <= tracks.len(),
            model == tracks.deep_view(),
            needed == lengths_needed(model, last_track_too),
            lengths_known(model, if k < needed { k as int } else { needed as int }),
            start_ms == track_start(model, k as int),
            start_ms <= k * 0xFFFF_FFFF,
            blocks.deep_view() =~= track_blocks(model).take(k as int),
        decreases tracks.len() - k,
    {
        let track = &tracks[k];
        let block = build_block(track, start_ms);
        let ghost before = blocks.deep_view();
        blocks.push(block);
        assert(blocks.deep_view() =~= before.push(block@));
        match track.length_ms {
            Some(ms) => {
                start_ms = start_ms + ms as u128;
            },
            None => {
                if k < needed {
                    return Err(CuesheetError::MissingTrackLength { track_index: k });
                }
            },
        }
        k += 1;
    }
    Ok(blocks)
}

/// Copies the lines of a header block.
fn copy_lines(lines: &Vec<String>) -> (r: Vec<String>)
    ensures
        r.deep_view() == lines.deep_view(),
{
    let mut out: Vec<String> = Vec::new();
    let mut i: usize = 0;
    while i < lines.len()
        invariant
            i <= lines.len(),
            out.deep_view() =~= lines.deep_view().take(i as int),
        decreases lines.len() - i,
    {
        let line = lines[i].clone();
        push_line(&mut out, line);
        i += 1;
    }
    out
}

/// Builds the cue sheet of a medium, with the lengths of all its tracks, or
/// of all but the last, owed. Fails on the first track whose length is owed
/// and not known.
pub fn build_medium(
    release_header: &Vec<String>,
    medium: &Medium,
    is_multi_disc: bool,
    release_title: &str,
    last_track_too: bool,
) -> (r: Result<Cuesheet, CuesheetError>)
    ensures
        match r {
            Ok(sheet) => {
                &&& lengths_known(medium@.tracks, lengths_needed(medium@.tracks, last_track_too))
                &&& sheet@ == cuesheet(
                    release_header.deep_view(),
                    medium@,
                    is_multi_disc,
                    release_title@,
                )
            },
            Err(CuesheetError::MissingTrackLength { track_index }) => first_unknown_length(
                medium@.tracks,
                lengths_needed(medium@.tracks, last_track_too),
                track_index as int,
            ),
        },
{
    match build_blocks(&medium.tracks, last_track_too) {
        Ok(tracks) => Ok(
            Cuesheet {
                medium_id: medium_id(medium),
                header: copy_lines(release_header),
                title_line: title_line(release_title, medium, is_multi_disc),
                tracks,
            },
        ),
        Err(e) => Err(e),
    }
}

/// Builds the cue sheet of a medium. The length of every track but the last
/// is needed to place the tracks; the cue sheet is built exactly when these
/// are known, and otherwise the first track that lacks one is reported.
pub fn build(
    release_header: &Vec<String>,
    medium: &Medium,
    is_multi_disc: bool,
    release_title: &str,
) -> (r: Result<Cuesheet, CuesheetError>)
    ensures
        match r {
            Ok(sheet) => {
                &&& lengths_known(medium@.tracks, lengths_needed(medium@.tracks, false))
                &&& sheet@ == cuesheet(
                    release_header.deep_view(),
                    medium@,
                    is_multi_disc,
                    release_title@,
                )
            },
            Err(CuesheetError::MissingTrackLength { track_index }) => first_unknown_length(
                medium@.tracks,
                lengths_needed(medium@.tracks, false),
                track_index as int,
            ),
        },
{
    build_medium(release_header, medium, is_multi_disc, release_title, false)
}

/// Builds the cue sheets of a release, one per medium. A release owes the
/// length of every track but the last track of its last medium; the cue
/// sheets are built exactly when these are known, and otherwise the first
/// medium that lacks one is reported with its first such track.
pub fn release_cuesheets(release: &Release) -> (r: Result<Vec<Cuesheet>, ReleaseError>)
    ensures
        match r {
            Ok(sheets) => {
                &&& media_complete(release@, release@.media.len() as int)
                &&& sheets.deep_view() == release_sheets(release@)
            },
            Err(e) => {
                &&& e.medium_index < release@.media.len()
                &&& media_complete(release@, e.medium_index as int)
                &&& e.cause matches CuesheetError::MissingTrackLength { track_index }
                &&& first_unknown_length(
                    release@.media[e.medium_index as int].tracks,
                    release_lengths_needed(release@, e.medium_index as int),
                    track_index as int,
                )
            },
        },
{
    let header = release_header(release);
    let is_multi_disc = release.media.len() > 1;
    let mut sheets: Vec<Cuesheet> = Vec::new();
    let mut i: usize = 0;
    while i < release.media.len()
        invariant
            i <= release.media.len(),
            header.deep_view() == header_lines(release@),
            is_multi_disc == (release@.media.len() > 1),
            media_complete(release@, i as int),
            sheets.deep_view() =~= release_sheets(release@).take(i as int),
        decreases release.media.len() - i,
    {
        let medium = &release.media[i];
        let last_track_too = i + 1 < release.media.len();
        match build_medium(&header, medium, is_multi_disc, release.title.as_str(), last_track_too) {
            Ok(sheet) => {
                let ghost before = sheets.deep_view();
                sheets.push(sheet);
                assert(sheets.deep_view() =~= before.push(sheet@));
            },
            Err(cause) => {
                return Err(ReleaseError { medium_index: i, cause });
            },
        }
        i += 1;
    }
    Ok(sheets)
}

impl Cuesheet {
    /// The lines of the cue sheet, in order.
    pub fn lines(&self) -> (r: Vec<String>)
        ensures
            r.deep_view() == cuesheet_lines(self@),
    {
        let mut out = copy_lines(&self.header);
        push_line(&mut out, self.title_line.clone());
        let ghost fixed = self@.header + seq![self@.title_line];
        let ghost blocks = self@.tracks;
        let mut k: usize = 0;
        while k < self.tracks.len()
            invariant
                k <= self.tracks.len(),
                blocks == self.tracks.deep_view(),
                out.deep_view() =~= fixed + blocks_lines(blocks.take(k as int)),
            decreases self.tracks.len() - k,
        {
            let block = &self.tracks[k];
            assert(blocks.take(k + 1).drop_last() =~= blocks.take(k as int));
            push_line(&mut out, block.track_line.clone());
            push_line(&mut out, block.title_line.clone());
            match &block.performer_line {
                Some(line) => {
                    push_line(&mut out, line.clone());
                },
                None => {},
            }
            push_line(&mut out, block.index_line.clone());
            k += 1;
        }
        assert(blocks.take(self.tracks.len() as int) =~= blocks);
        out
    }

    /// The cue sheet as one text, each line ended by a line feed.
    pub fn text(&self) -> (r: String)
        ensures
            r@ == lines_text(cuesheet_lines(self@)),
    {
        let lines = self.lines();
        let ghost all = lines.deep_view();
        let mut out = String::new();
        let mut i: usize = 0;
        while i < lines.len()
            invariant
                i <= lines.len(),
                all == lines.deep_view(),
                out@ == lines_text(all.take(i as int)),
            decreases lines.len() - i,
        {
            out.append(lines[i].as_str());
            out.append("\n");
            proof {
                reveal_strlit("\n");
                assert(all.take(i + 1).drop_last() =~= all.take(i as int));
            }
            i += 1;
        }
        assert(all.take(lines.len() as int) =~= all);
        out
    }

    /// The name of the file that holds the cue sheet: the medium's
    /// identifier with the extension `.cue`.
    pub fn file_name(&self) -> (r: String)
        ensures
            r@ == cuesheet_file_name(self@),
    {
        let mut out = self.medium_id.clone();
        out.append(".cue");
        out
    }
}

/// The first track of a medium starts at zero, each later track where the
/// track before it ends, and a track's index line carries its start as a
/// timecode.
pub proof fn lemma_track_index(
    header: Seq<Seq<char>>,
    medium: MediumModel,
    is_multi_disc: bool,
    release_title: Seq<char>,
    k: int,
)
    requires
        0 <= k < medium.tracks.len(),
    ensures
        track_start(medium.tracks, 0) == 0,
        track_start(medium.tracks, k + 1) == track_start(medium.tracks, k) + known_length(
            medium.tracks[k],
        ),
        cuesheet(header, medium, is_multi_disc, release_title).tracks[k].index_line
            == "    INDEX 01 "@ + timecode_text(track_start(medium.tracks, k)),
        k == 0 ==> cuesheet(header, medium, is_multi_disc, release_title).tracks[k].index_line
            == "    INDEX 01 00:00:00"@,
{
    reveal_strlit("    INDEX 01 ");
    reveal_strlit("    INDEX 01 00:00:00");
}

/// With the lengths before track `k` known, the track starts at their sum.
pub proof fn lemma_track_start_is_sum(tracks: Seq<TrackModel>, k: int)
    requires
        0 <= k <= tracks.len(),
        lengths_known(tracks, k),
    ensures
        track_start(tracks, k) == sum_of_lengths(tracks, k),
    decreases k,
{
    if k > 0 {
        lemma_track_start_is_sum(tracks, k - 1);
    }
}

/// A release of one medium never has the medium's identifier in the title
/// line; a release of two or more media has it on every medium.
pub proof fn lemma_title_line_names_medium(release: ReleaseModel, i: int)
    requires
        0 <= i < release.media.len(),
    ensures
        release.media.len() == 1 ==> release_sheets(release)[i].title_line == "TITLE \""@
            + release.title + subtitle_suffix(release.media[i]) + "\""@,
        release.media.len() >= 2 ==> release_sheets(release)[i].title_line == "TITLE \""@
            + release.title + "- "@ + medium_identifier(release.media[i]) + subtitle_suffix(
            release.media[i],
        ) + "\""@,
{
}

/// A track has a performer line exactly when it has artist credits of its
/// own; without them its block is three lines, none of them a performer line.
pub proof fn lemma_track_performer_line(tracks: Seq<TrackModel>, k: int)
    requires
        0 <= k < tracks.len(),
    ensures
        track_blocks(tracks)[k].performer_line is Some <==> has_credits(tracks[k]),
        !has_credits(tracks[k]) ==> block_lines(track_blocks(tracks)[k]) == seq![
            track_line(tracks[k]),
            track_title_line(tracks[k]),
            index_line(track_start(tracks, k)),
        ],
        has_credits(tracks[k]) ==> block_lines(track_blocks(tracks)[k]) == seq![
            track_line(tracks[k]),
            track_title_line(tracks[k]),
            track_performer_line(tracks[k])->0,
            index_line(track_start(tracks, k)),
        ],
{
}

/// A release has one cue sheet per medium. Each carries the same header
/// block, has one block per track of its medium, and starts its first track
/// at zero whatever the media before it hold.
pub proof fn lemma_release_sheets(release: ReleaseModel, i: int)
    requires
        0 <= i < release.media.len(),
    ensures
        release_sheets(release).len() == release.media.len(),
        release_sheets(release)[i].header == header_lines(release),
        release_sheets(release)[i].medium_id == medium_identifier(release.media[i]),
        release_sheets(release)[i].tracks == track_blocks(release.media[i].tracks),
        release_sheets(release)[i].tracks.len() == release.media[i].tracks.len(),
        release.media[i].tracks.len() > 0 ==> release_sheets(release)[i].tracks[0].index_line
            == index_line(0),
{
}

} // verus!
