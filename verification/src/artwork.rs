//! Cover art: what to download, where to put it, and what to do with each
//! response.
//!
//! The catalog answers a request for cover art either with the address of one
//! image or with a list of images, each tagged with the kinds of picture it
//! shows. The library plans the downloads; fetching and writing are the
//! caller's.

use vstd::prelude::*;
use vstd::std_specs::iter::IteratorSpec;
use crate::text::{join_texts, joined_text};

verus! {

/// Seconds to wait after each download of a listed image, out of courtesy to
/// the server.
pub const DOWNLOAD_PAUSE_SECONDS: u64 = 1;

/// The name of the cover art under the output directory: of the one file, or
/// of the directory that holds the listed images.
pub const COVER_ART_PATH_COMPONENT: &'static str = "Cover";

/// One listed image: its address, and the kinds of picture it shows.
#[derive(Clone, Debug)]
pub struct CoverArtImage {
    pub url: String,
    pub types: Vec<String>,
}

/// The model of a [`CoverArtImage`].
pub struct CoverArtImageModel {
    pub url: Seq<char>,
    pub types: Seq<Seq<char>>,
}

impl DeepView for CoverArtImage {
    type V = CoverArtImageModel;

    open spec fn deep_view(&self) -> CoverArtImageModel {
        CoverArtImageModel { url: self.url@, types: self.types.deep_view() }
    }
}

impl View for CoverArtImage {
    type V = CoverArtImageModel;

    open spec fn view(&self) -> CoverArtImageModel {
        self.deep_view()
    }
}

/// The catalog's answer to a request for cover art.
#[derive(Clone, Debug)]
pub enum CoverArt {
    /// The address of one image.
    Url(String),
    /// A list of tagged images.
    Images(Vec<CoverArtImage>),
}

/// The model of a [`CoverArt`].
pub enum CoverArtModel {
    Url(Seq<char>),
    Images(Seq<CoverArtImageModel>),
}

impl DeepView for CoverArt {
    type V = CoverArtModel;

    open spec fn deep_view(&self) -> CoverArtModel {
        match self {
            CoverArt::Url(url) => CoverArtModel::Url(url@),
            CoverArt::Images(images) => CoverArtModel::Images(images.deep_view()),
        }
    }
}

impl View for CoverArt {
    type V = CoverArtModel;

    open spec fn view(&self) -> CoverArtModel {
        self.deep_view()
    }
}

/// One download: the address to fetch, the name of the file to write without
/// its extension, and the pause to make afterwards.
#[derive(Clone, Debug)]
pub struct Download {
    pub url: String,
    pub file_stem: String,
    pub pause_seconds: u64,
}

/// The model of a [`Download`].
pub struct DownloadModel {
    pub url: Seq<char>,
    pub file_stem: Seq<char>,
    pub pause_seconds: nat,
}

impl DeepView for Download {
    type V = DownloadModel;

    open spec fn deep_view(&self) -> DownloadModel {
        DownloadModel {
            url: self.url@,
            file_stem: self.file_stem@,
            pause_seconds: self.pause_seconds as nat,
        }
    }
}

impl View for Download {
    type V = DownloadModel;

    open spec fn view(&self) -> DownloadModel {
        self.deep_view()
    }
}

/// The downloads to make for an answer, in order, and the directory to make
/// for them under the output directory. Where there is a directory the files
/// go into it, otherwise into the output directory itself.
#[derive(Clone, Debug)]
pub struct DownloadPlan {
    pub directory: Option<String>,
    pub downloads: Vec<Download>,
}

/// The model of a [`DownloadPlan`].
pub struct DownloadPlanModel {
    pub directory: Option<Seq<char>>,
    pub downloads: Seq<DownloadModel>,
}

impl DeepView for DownloadPlan {
    type V = DownloadPlanModel;

    open spec fn deep_view(&self) -> DownloadPlanModel {
        DownloadPlanModel {
            directory: self.directory.deep_view(),
            downloads: self.downloads.deep_view(),
        }
    }
}

impl View for DownloadPlan {
    type V = DownloadPlanModel;

    open spec fn view(&self) -> DownloadPlanModel {
        self.deep_view()
    }
}

/// What to do with the response to one download.
#[derive(Clone, Debug)]
pub enum ResponseAction {
    /// Write the image, under the extension that its address shows, if it
    /// shows one.
    Save { extension: Option<String> },
    /// Report the status and go on with the next image.
    Skip,
}

/// The model of a [`ResponseAction`].
pub enum ResponseActionModel {
    Save { extension: Option<Seq<char>> },
    Skip,
}

impl DeepView for ResponseAction {
    type V = ResponseActionModel;

    open spec fn deep_view(&self) -> ResponseActionModel {
        match self {
            ResponseAction::Save { extension } => ResponseActionModel::Save {
                extension: extension.deep_view(),
            },
            ResponseAction::Skip => ResponseActionModel::Skip,
        }
    }
}

impl View for ResponseAction {
    type V = ResponseActionModel;

    open spec fn view(&self) -> ResponseActionModel {
        self.deep_view()
    }
}

/// The file stem of a listed image: its type tags joined by `_`.
pub open spec fn image_stem(types: Seq<Seq<char>>) -> Seq<char> {
    joined_text(types, "_"@)
}

/// The download of the listed image `image`.
pub open spec fn image_download(image: CoverArtImageModel) -> DownloadModel {
    DownloadModel {
        url: image.url,
        file_stem: image_stem(image.types),
        pause_seconds: DOWNLOAD_PAUSE_SECONDS as nat,
    }
}

/// The plan for an answer. A single address is fetched once, into a file
/// named by the cover-art name, without a directory and without a pause.
/// Listed images are fetched one by one, in their order, into a directory
/// named by the cover-art name, each under its type tags, with a pause after
/// each.
pub open spec fn download_plan(art: CoverArtModel) -> DownloadPlanModel {
    match art {
        CoverArtModel::Url(url) => DownloadPlanModel {
            directory: None,
            downloads: seq![
                DownloadModel { url, file_stem: COVER_ART_PATH_COMPONENT@, pause_seconds: 0 },
            ],
        },
        CoverArtModel::Images(images) => DownloadPlanModel {
            directory: Some(COVER_ART_PATH_COMPONENT@),
            downloads: Seq::new(images.len(), |i: int| image_download(images[i])),
        },
    }
}

/// The index of the last `c` in `s`, or -1 where `s` holds none.
pub open spec fn last_index_of(s: Seq<char>, c: char) -> int
    decreases s.len(),
{
    if s.len() == 0 {
        -1
    } else if s.last() == c {
        s.len() - 1
    } else {
        last_index_of(s.drop_last(), c)
    }
}

/// The final segment of a path: what follows its last `/`, or the whole path
/// where it has none.
pub open spec fn final_segment(path: Seq<char>) -> Seq<char> {
    path.skip(last_index_of(path, '/') + 1)
}

/// The extension of a file name: what follows its last `.`. There is none
/// where the name has no `.`, where its only `.` is its first character, and
/// for the name `..`.
pub open spec fn name_extension(name: Seq<char>) -> Option<Seq<char>> {
    let dot = last_index_of(name, '.');
    if dot <= 0 || name == seq!['.', '.'] {
        None
    } else {
        Some(name.skip(dot + 1))
    }
}

/// The extension that the path of an address shows: that of its final
/// segment.
pub open spec fn path_extension(path: Seq<char>) -> Option<Seq<char>> {
    name_extension(final_segment(path))
}

/// What to do with a response: save it where the status is a success, skip it
/// otherwise.
pub open spec fn action_for(status_is_success: bool, url_path: Seq<char>) -> ResponseActionModel {
    if status_is_success {
        ResponseActionModel::Save { extension: path_extension(url_path) }
    } else {
        ResponseActionModel::Skip
    }
}

/// The last index of `c` lies in the text, holds `c`, and nothing after it
/// does; without a `c` it is -1.
pub proof fn lemma_last_index_of(s: Seq<char>, c: char)
    ensures
        -1 <= last_index_of(s, c) < s.len(),
        last_index_of(s, c) >= 0 ==> s[last_index_of(s, c)] == c,
        forall|j: int| last_index_of(s, c) < j < s.len() ==> s[j] != c,
    decreases s.len(),
{
    if s.len() > 0 && s.last() != c {
        lemma_last_index_of(s.drop_last(), c);
        assert forall|j: int| last_index_of(s, c) < j < s.len() implies s[j] != c by {
            if j < s.len() - 1 {
                assert(s.drop_last()[j] == s[j]);
            }
        }
    }
}

/// Finds the last `c` in `s`, counting characters from 0.
fn find_last(s: &str, c: char) -> (r: Option<usize>)
    ensures
        match r {
            Some(i) => i == last_index_of(s@, c),
            None => last_index_of(s@, c) == -1,
        },
{
    let n = s.unicode_len();
    let mut rest = s.chars();
    let mut found: Option<usize> = None;
    let mut i: usize = 0;
    loop
        invariant
            i <= n == s@.len(),
            rest.remaining() == s@.skip(i as int),
            match found {
                Some(k) => k == last_index_of(s@.take(i as int), c),
                None => last_index_of(s@.take(i as int), c) == -1,
            },
        ensures
            i == n,
        decreases n - i,
    {
        match rest.next() {
            Some(next) => {
                assert(s@.take(i + 1).drop_last() =~= s@.take(i as int));
                if next == c {
                    found = Some(i);
                }
                i += 1;
            },
            None => {
                break;
            },
        }
    }
    found
}

/// The extension that the path of an address shows.
pub fn extension_of(url_path: &str) -> (r: Option<String>)
    ensures
        r.deep_view() == path_extension(url_path@),
{
    let n = url_path.unicode_len();
    proof {
        lemma_last_index_of(url_path@, '/');
    }
    let start: usize = match find_last(url_path, '/') {
        Some(slash) => slash + 1,
        None => 0,
    };
    let name = url_path.substring_char(start, n);
    let m = name.unicode_len();
    proof {
        lemma_last_index_of(name@, '.');
    }
    match find_last(name, '.') {
        None => None,
        Some(dot) => {
            if dot == 0 {
                None
            } else if m == 2 && name.get_char(0) == '.' {
                assert(name@ =~= seq!['.', '.']);
                None
            } else {
                let extension = name.substring_char(dot + 1, m);
                Some(extension.to_owned())
            }
        },
    }
}

/// Decides what to do with the response to a download, from its status and
/// from the path of the address that the response came from.
pub fn response_action(status_is_success: bool, url_path: &str) -> (r: ResponseAction)
    ensures
        r@ == action_for(status_is_success, url_path@),
{
    if status_is_success {
        ResponseAction::Save { extension: extension_of(url_path) }
    } else {
        ResponseAction::Skip
    }
}

/// Builds the file stem of a listed image from its type tags.
pub fn image_file_stem(types: &Vec<String>) -> (r: String)
    ensures
        r@ == image_stem(types.deep_view()),
{
    join_texts(types, "_")
}

/// Plans the downloads for an answer.
pub fn plan_downloads(art: &CoverArt) -> (r: DownloadPlan)
    ensures
        r@ == download_plan(art@),
{
    match art {
        CoverArt::Url(url) => {
            let mut downloads: Vec<Download> = Vec::new();
            downloads.push(
                Download {
                    url: url.clone(),
                    file_stem: COVER_ART_PATH_COMPONENT.to_owned(),
                    pause_seconds: 0,
                },
            );
            assert(downloads.deep_view() =~= download_plan(art@).downloads);
            DownloadPlan { directory: None, downloads }
        },
        CoverArt::Images(images) => {
            let mut downloads: Vec<Download> = Vec::new();
            let ghost planned = download_plan(art@).downloads;
            let mut i: usize = 0;
            while i < images.len()
                invariant
                    i <= images.len(),
                    planned == Seq::new(
                        images.deep_view().len(),
                        |k: int| image_download(images.deep_view()[k]),
                    ),
                    downloads.deep_view() =~= planned.take(i as int),
                decreases images.len() - i,
            {
                let image = &images[i];
                let download = Download {
                    url: image.url.clone(),
                    file_stem: image_file_stem(&image.types),
                    pause_seconds: DOWNLOAD_PAUSE_SECONDS,
                };
                let ghost before = downloads.deep_view();
                downloads.push(download);
                assert(downloads.deep_view() =~= before.push(download@));
                i += 1;
            }
            assert(downloads.deep_view() =~= planned);
            DownloadPlan { directory: Some(COVER_ART_PATH_COMPONENT.to_owned()), downloads }
        },
    }
}

} // verus!
