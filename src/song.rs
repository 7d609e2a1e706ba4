use vstd::prelude::*;

verus! {

/// Display data of one song, captured once when a row is filled.
pub struct SongInfo {
    pub id: u64,
    pub name: String,
    pub singer: String,
    pub album: String,
    pub album_id: u64,
    pub pic_url: String,
    pub duration: String,
}

/// The album page that a row asks the controller to open.
pub struct SongList {
    pub id: u64,
    pub name: String,
    pub cover_img_url: String,
}

/// What a `SongList` says, with its strings as character sequences.
pub struct SongListView {
    pub id: u64,
    pub name: Seq<char>,
    pub cover_img_url: Seq<char>,
}

impl View for SongList {
    type V = SongListView;

    open spec fn view(&self) -> SongListView {
        SongListView { id: self.id, name: self.name@, cover_img_url: self.cover_img_url@ }
    }
}

} // verus!
