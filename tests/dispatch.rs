use songlist_row::row::like_icon_name;
use songlist_row::{Action, LikeCompletion, RowRegistry, SongInfo, SonglistRow};

fn song() -> SongInfo {
    SongInfo {
        id: 42,
        name: "Song".to_string(),
        singer: "Singer".to_string(),
        album: "Album".to_string(),
        album_id: 7,
        pic_url: "http://example.com/c.jpg".to_string(),
        duration: "03:15".to_string(),
    }
}

fn filled_row() -> SonglistRow {
    let mut row = SonglistRow::new();
    row.set_from_song_info(&song());
    row
}

fn take_completion(a: Action) -> (u64, bool, LikeCompletion) {
    match a {
        Action::LikeSong(id, desired, Some(c)) => (id, desired, c),
        _ => panic!("expected a like command with a completion"),
    }
}

#[test]
fn fill_shows_song_fields() {
    let row = filled_row();
    assert_eq!(row.song_id(), Some(42));
    assert_eq!(row.album_id(), Some(7));
    assert_eq!(row.cover_url(), Some("http://example.com/c.jpg".to_string()));
    assert_eq!(row.tooltip(), Some("Song".to_string()));
    assert_eq!(row.title(), "Song");
    assert_eq!(row.artist(), "Singer");
    assert_eq!(row.album(), "Album");
    assert_eq!(row.duration(), "03:15");
    assert!(!row.like());
}

#[test]
fn fields_survive_flag_changes() {
    let mut row = filled_row();
    row.set_like(true);
    row.switch_image(true);
    row.set_like(false);
    assert_eq!(row.title(), "Song");
    assert_eq!(row.album_id(), Some(7));
    assert!(row.is_play_icon_visible());
}

#[test]
fn icon_follows_flag() {
    assert_eq!(like_icon_name(true), "starred-symbolic");
    assert_eq!(like_icon_name(false), "non-starred-symbolic");
    let mut row = SonglistRow::default();
    assert_eq!(row.like_icon(), "non-starred-symbolic");
    row.set_like(true);
    row.set_like(true);
    assert_eq!(row.like_icon(), "starred-symbolic");
}

#[test]
fn toggle_confirmed_while_alive() {
    let mut reg = RowRegistry::new();
    let id = reg.insert(filled_row());
    let a = reg.get(id).unwrap().like_button_clicked();
    let (song_id, desired, c) = take_completion(a);
    assert_eq!(song_id, 42);
    assert!(desired);
    // Nothing changes before the completion arrives.
    assert!(!reg.get(id).unwrap().like());
    assert!(reg.deliver(c));
    let row = reg.get(id).unwrap();
    assert!(row.like());
    assert_eq!(row.like_icon(), "starred-symbolic");
}

#[test]
fn completion_after_destroy_is_noop() {
    let mut reg = RowRegistry::new();
    let id = reg.insert(filled_row());
    let other = reg.insert(filled_row());
    let (_, _, c) = take_completion(reg.get(id).unwrap().like_button_clicked());
    assert!(reg.remove(id).is_some());
    // A new row may take the freed slot; the old handle must not reach it.
    let fresh = reg.insert(filled_row());
    assert!(fresh != id);
    assert!(!reg.deliver(c));
    assert!(reg.get(id).is_none());
    assert!(!reg.get(fresh).unwrap().like());
    assert!(!reg.get(other).unwrap().like());
}

#[test]
fn two_toggles_before_either_lands() {
    let mut reg = RowRegistry::new();
    let id = reg.insert(filled_row());
    let (_, da, ca) = take_completion(reg.get(id).unwrap().like_button_clicked());
    let (_, db, cb) = take_completion(reg.get(id).unwrap().like_button_clicked());
    assert!(da && db);
    assert!(reg.deliver(ca));
    assert!(reg.get(id).unwrap().like());
    assert!(reg.deliver(cb));
    assert!(reg.get(id).unwrap().like());
}

#[test]
fn second_toggle_after_first_lands() {
    let mut reg = RowRegistry::new();
    let id = reg.insert(filled_row());
    let (_, da, ca) = take_completion(reg.get(id).unwrap().like_button_clicked());
    assert!(da);
    assert!(reg.deliver(ca));
    let (_, db, cb) = take_completion(reg.get(id).unwrap().like_button_clicked());
    assert!(!db);
    assert!(reg.deliver(cb));
    assert!(!reg.get(id).unwrap().like());
}

#[test]
fn album_command_after_row_is_gone() {
    let mut reg = RowRegistry::new();
    let id = reg.insert(filled_row());
    let row = reg.remove(id).unwrap();
    assert!(reg.get(id).is_none());
    match row.album_button_clicked() {
        Action::ToAlbumPage(l) => {
            assert_eq!(l.id, 7);
            assert_eq!(l.name, "Album");
            assert_eq!(l.cover_img_url, "http://example.com/c.jpg");
        }
        _ => panic!("expected an album command"),
    }
}

#[test]
fn handle_is_set_on_insert() {
    let mut reg = RowRegistry::new();
    let a = reg.insert(SonglistRow::new());
    let b = reg.insert(SonglistRow::new());
    assert!(a != b);
    assert_eq!(reg.get(a).unwrap().self_ref(), Some(a));
    assert_eq!(reg.get(b).unwrap().self_ref(), Some(b));
    assert!(reg.remove(a).is_some());
    assert!(reg.remove(a).is_none());
}
