use vstd::prelude::*;

use crate::registry::RowRegistry;
use crate::row::{like_icon_spec, Action, RowId, RowView};
use crate::song::SongInfo;

verus! {

/// Once a row is destroyed its handle never resolves again, however many rows
/// are created afterwards; so a completion for it, delivered later, changes
/// nothing (see `RowRegistry::deliver`).
pub proof fn lemma_dead_handle_stays_dead(
    before: RowRegistry,
    after: RowRegistry,
    row: RowView,
    r: RowId,
    id: RowId,
)
    requires
        before.is_dead(id),
        RowRegistry::inserted(before, after, row, r),
    ensures
        after.is_dead(id),
{
    assert(r != id);
}

/// Setting the flag twice to the same value shows the same icon as setting it
/// once.
pub proof fn lemma_set_like_idempotent(r: RowView, like: bool)
    ensures
        r.with_like(like).with_like(like) == r.with_like(like),
        like_icon_spec(r.with_like(like).with_like(like).like) == like_icon_spec(
            r.with_like(like).like,
        ),
{
}

/// A filled row keeps showing its song's fields whatever happens to its flag,
/// its play icon or its handle.
pub proof fn lemma_snapshot_kept(r: RowView, si: SongInfo, like: bool, visible: bool, h: Option<RowId>)
    requires
        r.shows(si),
    ensures
        r.with_like(like).shows(si),
        r.with_play_icon(visible).shows(si),
        r.with_self_ref(h).shows(si),
{
}

/// A single toggle: the command asks for the negated flag, its completion names
/// the row, and applying that completion gives the row the negated flag.
pub proof fn lemma_toggle_then_confirm(r: RowView)
    requires
        r.song_id is Some,
        r.self_ref is Some,
    ensures
        r.like_action() matches Action::LikeSong(id, desired, Some(c)) && id == r.song_id.unwrap()
            && desired == !r.like && c.row == r.self_ref.unwrap() && r.with_like(!c.like).like
            == !r.like,
{
}

/// The album command reads the snapshot only: it is the same whatever the
/// row's handle is, or whether it still resolves.
pub proof fn lemma_album_target_ignores_handle(r: RowView, h: Option<RowId>)
    ensures
        r.with_self_ref(h).album_target() == r.album_target(),
{
}

} // verus!
