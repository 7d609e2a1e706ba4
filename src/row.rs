use vstd::prelude::*;

use crate::song::{SongInfo, SongList, SongListView};

verus! {

/// Non-owning handle to a row held by a `RowRegistry`.
#[derive(Clone, Copy, Debug, PartialEq, Eq, Structural)]
pub struct RowId {
    pub index: usize,
    pub generation: u64,
}

/// One-shot completion of a "like" command: the row to update and the value
/// of its flag when the command was sent.
pub struct LikeCompletion {
    pub row: RowId,
    pub like: bool,
}

/// Commands that a row sends to the controller.
pub enum Action {
    /// Song id, the desired flag, and the completion to deliver afterwards.
    LikeSong(u64, bool, Option<LikeCompletion>),
    ToAlbumPage(SongList),
}

/// The icon shown for a flag value.
pub open spec fn like_icon_spec(like: bool) -> Seq<char> {
    if like {
        "starred-symbolic"@
    } else {
        "non-starred-symbolic"@
    }
}

/// The icon name of the like button for a flag value.
pub fn like_icon_name(like: bool) -> (r: &'static str)
    ensures
        r@ == like_icon_spec(like),
{
    if like {
        "starred-symbolic"
    } else {
        "non-starred-symbolic"
    }
}

/// What a row holds.
pub struct RowView {
    pub song_id: Option<u64>,
    pub album_id: Option<u64>,
    pub cover_url: Option<Seq<char>>,
    pub tooltip: Option<Seq<char>>,
    pub title: Seq<char>,
    pub artist: Seq<char>,
    pub album: Seq<char>,
    pub duration: Seq<char>,
    pub like: bool,
    pub play_icon_visible: bool,
    pub self_ref: Option<RowId>,
}

impl RowView {
    pub open spec fn with_like(self, like: bool) -> RowView {
        RowView { like, ..self }
    }

    pub open spec fn with_play_icon(self, visible: bool) -> RowView {
        RowView { play_icon_visible: visible, ..self }
    }

    pub open spec fn with_self_ref(self, r: Option<RowId>) -> RowView {
        RowView { self_ref: r, ..self }
    }

    /// The row shows exactly the fields of `si`.
    pub open spec fn shows(self, si: SongInfo) -> bool {
        &&& self.song_id == Some(si.id)
        &&& self.album_id == Some(si.album_id)
        &&& self.cover_url == Some(si.pic_url@)
        &&& self.tooltip == Some(si.name@)
        &&& self.title == si.name@
        &&& self.artist == si.singer@
        &&& self.album == si.album@
        &&& self.duration == si.duration@
    }

    pub open spec fn is_filled(self) -> bool {
        self.song_id is Some && self.album_id is Some && self.cover_url is Some
    }

    /// The command a click on the like button sends.
    pub open spec fn like_action(self) -> Action {
        Action::LikeSong(
            self.song_id.unwrap(),
            !self.like,
            Some(LikeCompletion { row: self.self_ref.unwrap(), like: self.like }),
        )
    }

    /// The album page a click on the album button opens.
    pub open spec fn album_target(self) -> SongListView {
        SongListView {
            id: self.album_id.unwrap(),
            name: self.album,
            cover_img_url: self.cover_url.unwrap(),
        }
    }
}

/// The state of one row of a song list.
pub struct SonglistRow {
    song_id: Option<u64>,
    album_id: Option<u64>,
    cover_url: Option<String>,
    tooltip: Option<String>,
    title: String,
    artist: String,
    album: String,
    duration: String,
    like: bool,
    play_icon_visible: bool,
    self_ref: Option<RowId>,
}

pub open spec fn opt_view(s: Option<String>) -> Option<Seq<char>> {
    match s {
        Some(t) => Some(t@),
        None => None,
    }
}

impl View for SonglistRow {
    type V = RowView;

    closed spec fn view(&self) -> RowView {
        RowView {
            song_id: self.song_id,
            album_id: self.album_id,
            cover_url: opt_view(self.cover_url),
            tooltip: opt_view(self.tooltip),
            title: self.title@,
            artist: self.artist@,
            album: self.album@,
            duration: self.duration@,
            like: self.like,
            play_icon_visible: self.play_icon_visible,
            self_ref: self.self_ref,
        }
    }
}

impl Default for SonglistRow {
    fn default() -> (r: Self)
        ensures
            r@ == SonglistRow::empty_view(),
    {
        Self::new()
    }
}

impl SonglistRow {
    pub open spec fn empty_view() -> RowView {
        RowView {
            song_id: None,
            album_id: None,
            cover_url: None,
            tooltip: None,
            title: Seq::empty(),
            artist: Seq::empty(),
            album: Seq::empty(),
            duration: Seq::empty(),
            like: false,
            play_icon_visible: false,
            self_ref: None,
        }
    }

    /// A row that shows nothing yet.
    pub fn new() -> (r: Self)
        ensures
            r@ == Self::empty_view(),
    {
        SonglistRow {
            song_id: None,
            album_id: None,
            cover_url: None,
            tooltip: None,
            title: String::new(),
            artist: String::new(),
            album: String::new(),
            duration: String::new(),
            like: false,
            play_icon_visible: false,
            self_ref: None,
        }
    }

    /// Fills the row from a song; a row is filled once.
    pub fn set_from_song_info(&mut self, si: &SongInfo)
        requires
            old(self)@.song_id is None,
            old(self)@.album_id is None,
            old(self)@.cover_url is None,
        ensures
            final(self)@.shows(*si),
            final(self)@.like == old(self)@.like,
            final(self)@.play_icon_visible == old(self)@.play_icon_visible,
            final(self)@.self_ref == old(self)@.self_ref,
    {
        self.song_id = Some(si.id);
        self.album_id = Some(si.album_id);
        self.cover_url = Some(si.pic_url.clone());
        self.tooltip = Some(si.name.clone());
        self.set_name(&si.name);
        self.set_singer(&si.singer);
        self.set_album(&si.album);
        self.set_duration(&si.duration);
    }

    fn set_name(&mut self, label: &str)
        ensures
            final(self)@ == (RowView { title: label@, ..old(self)@ }),
    {
        self.title = label.to_owned();
    }

    fn set_singer(&mut self, label: &str)
        ensures
            final(self)@ == (RowView { artist: label@, ..old(self)@ }),
    {
        self.artist = label.to_owned();
    }

    fn set_album(&mut self, label: &str)
        ensures
            final(self)@ == (RowView { album: label@, ..old(self)@ }),
    {
        self.album = label.to_owned();
    }

    fn set_duration(&mut self, label: &str)
        ensures
            final(self)@ == (RowView { duration: label@, ..old(self)@ }),
    {
        self.duration = label.to_owned();
    }

    /// Shows or hides the "now playing" icon.
    pub fn switch_image(&mut self, visible: bool)
        ensures
            final(self)@ == old(self)@.with_play_icon(visible),
    {
        self.play_icon_visible = visible;
    }

    /// Overwrites the flag; the icon follows it.
    pub fn set_like(&mut self, like: bool)
        ensures
            final(self)@ == old(self)@.with_like(like),
    {
        self.like = like;
    }

    pub fn like(&self) -> (r: bool)
        ensures
            r == self@.like,
    {
        self.like
    }

    /// The icon name the like button shows now.
    pub fn like_icon(&self) -> (r: &'static str)
        ensures
            r@ == like_icon_spec(self@.like),
    {
        like_icon_name(self.like)
    }

    pub fn is_play_icon_visible(&self) -> (r: bool)
        ensures
            r == self@.play_icon_visible,
    {
        self.play_icon_visible
    }

    pub fn song_id(&self) -> (r: Option<u64>)
        ensures
            r == self@.song_id,
    {
        self.song_id
    }

    pub fn album_id(&self) -> (r: Option<u64>)
        ensures
            r == self@.album_id,
    {
        self.album_id
    }

    pub fn self_ref(&self) -> (r: Option<RowId>)
        ensures
            r == self@.self_ref,
    {
        self.self_ref
    }

    pub fn title(&self) -> (r: &str)
        ensures
            r@ == self@.title,
    {
        self.title.as_str()
    }

    pub fn artist(&self) -> (r: &str)
        ensures
            r@ == self@.artist,
    {
        self.artist.as_str()
    }

    pub fn album(&self) -> (r: &str)
        ensures
            r@ == self@.album,
    {
        self.album.as_str()
    }

    pub fn duration(&self) -> (r: &str)
        ensures
            r@ == self@.duration,
    {
        self.duration.as_str()
    }

    pub fn cover_url(&self) -> (r: Option<String>)
        ensures
            opt_view(r) == self@.cover_url,
    {
        match &self.cover_url {
            Some(u) => Some(u.clone()),
            None => None,
        }
    }

    pub fn tooltip(&self) -> (r: Option<String>)
        ensures
            opt_view(r) == self@.tooltip,
    {
        match &self.tooltip {
            Some(u) => Some(u.clone()),
            None => None,
        }
    }

    pub(crate) fn set_self_ref(&mut self, r: Option<RowId>)
        ensures
            final(self)@ == old(self)@.with_self_ref(r),
    {
        self.self_ref = r;
    }

    /// The command for a click on the like button: ask for the negated flag, and
    /// carry a completion that names this row weakly and remembers the flag as it
    /// is now. The flag itself changes only when the completion is delivered.
    pub fn like_button_clicked(&self) -> (r: Action)
        requires
            self@.song_id is Some,
            self@.self_ref is Some,
        ensures
            r == self@.like_action(),
    {
        let like = self.like;
        let me = self.self_ref.unwrap();
        Action::LikeSong(self.song_id.unwrap(), !like, Some(LikeCompletion { row: me, like }))
    }

    /// The command for a click on the album button. It reads the snapshot only,
    /// never the row's handle, and carries no completion.
    pub fn album_button_clicked(&self) -> (r: Action)
        requires
            self@.album_id is Some,
            self@.cover_url is Some,
        ensures
            r matches Action::ToAlbumPage(l) && l@ == self@.album_target(),
    {
        let songlist = SongList {
            id: self.album_id.unwrap(),
            name: self.album.clone(),
            cover_img_url: self.cover_url.as_ref().unwrap().clone(),
        };
        Action::ToAlbumPage(songlist)
    }
}

} // verus!
