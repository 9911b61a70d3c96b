//! What is promised of images, and of messages read from rows.
use crate::app::{AppView, EffectView, Setting};
use crate::arrivals::messages_of;
use crate::conversation_store::DisplayMessageView;
use crate::events::{located, message_in};
use crate::images::{
    flight_landed, half_blocks, image_arrived, image_drawn, images_asked, message_drawn,
    preview_work, picture_work, Pixel,
};
use crate::places::{
    changing_changes_only, filter_has, message_of_time_is_found, newest_at, only_changed,
};
use crate::rows::{rfc3339_time, rows_messages, MessageRowView};
use crate::signal::{ImageCell, Rgb};
use crate::strmap::holds;
use vstd::prelude::*;

verus! {

/// A picture is drawn two rows of it to a line, the upper one above the lower one, each
/// pixel in its place and in its colour; what is clear is left out.
pub proof fn pictures_are_drawn(rows: Seq<Seq<Pixel>>, y: int, x: int)
    requires
        0 <= y < rows.len(),
        0 <= x < rows[y].len(),
        0 < rows[0].len(),
        forall|i: int| 0 <= i < rows.len() ==> (#[trigger] rows[i]).len() == rows[0].len(),
    ensures
        ({
            let lines = image_drawn(rows);
            let p = rows[y][x];
            let cell = lines->0[y / 2][x];
            let half = if y % 2 == 0 {
                cell.upper
            } else {
                cell.lower
            };
            &&& lines is Some && 2 * lines->0.len() - 1 <= rows.len() <= 2 * lines->0.len()
            &&& p.alpha >= 128 ==> half == Some(
                Rgb { red: p.red, green: p.green, blue: p.blue },
            )
            &&& p.alpha < 128 ==> half is None
        }),
{
    let r = y / 2;
    assert(rows[2 * r].len() == rows[0].len());
    assert(half_blocks(rows)[r][x] == crate::images::half_cell(rows, r, x));
}

/// An image that was asked for is shown at its message, as a picture or as that of a
/// preview, and nothing else changes; it can then be asked for again.
pub proof fn images_are_shown(
    a: AppView,
    id: Seq<char>,
    ts: i64,
    is_preview: bool,
    lines: Seq<Seq<ImageCell>>,
    path: Option<Seq<char>>,
    i: int,
)
    requires
        holds(a.store.conversations, id),
        newest_at(messages_of(a.store, id), ts, i),
    ensures
        ({
            let (b, done) = image_arrived(a, id, ts, is_preview, Some(lines), path);
            let m = messages_of(a.store, id)[i];
            let n = messages_of(b.store, id)[i];
            &&& done && only_changed(a, b, id, i, n)
            &&& is_preview ==> n.preview_image_lines == Some(lines) && n.image_lines
                == m.image_lines
            &&& !is_preview ==> n.image_lines == Some(lines) && n.preview_image_lines
                == m.preview_image_lines
            &&& n.body == m.body && n.sender == m.sender && n.timestamp_ms == m.timestamp_ms
                && n.status == m.status && n.image_path == m.image_path
            &&& !b.images.in_flight.contains((id, ts, is_preview))
        }),
{
    let s = messages_of(a.store, id);
    message_of_time_is_found(s, ts, i);
    let b = flight_landed(a, id, ts, is_preview);
    assert(located(b, id, ts) == Some(i));
    let x = message_drawn(message_in(b, id, i), is_preview, Some(lines), path);
    let (c, _) = image_arrived(a, id, ts, is_preview, Some(lines), path);
    assert(c.store.conversations == a.with_msg(id, i, x).store.conversations);
    changing_changes_only(a, c, id, i, x);
    filter_has(
        a.images.in_flight,
        |k: (Seq<char>, i64, bool)| k != (id, ts, is_preview),
        (id, ts, is_preview),
    );
}

/// Nothing is drawn where images are switched off.
pub proof fn no_images_where_unwanted(a: AppView)
    requires
        !a.settings.contains(Setting::InlineImages),
    ensures
        images_asked(a).effects == a.effects,
{
    assert(a.effects + Seq::<EffectView>::empty() =~= a.effects);
}

/// A picture that is not drawn yet is asked for with the file it is in, and one that is
/// drawn or on its way is not.
pub proof fn pictures_are_asked_for(a: AppView, id: Seq<char>, m: DisplayMessageView, e: EffectView)
    ensures
        picture_work(a, id, m).contains(e) ==> m.image_lines is None && m.image_path is Some && (e
            matches EffectView::RenderImage { conversation, timestamp_ms, is_preview, path, .. }
            && conversation == id && timestamp_ms == m.timestamp_ms && !is_preview && path
            == m.image_path->0),
        preview_work(a, id, m).contains(e) ==> m.preview_image_lines is None && a.settings.contains(
            Setting::ShowLinkPreviews,
        ) && (e matches EffectView::RenderImage {
            conversation,
            timestamp_ms,
            is_preview,
            path,
            ..
        } && conversation == id && timestamp_ms == m.timestamp_ms && is_preview && Some(path)
            == m.preview->0.image_path),
        a.images.in_flight.contains((id, m.timestamp_ms, false)) ==> picture_work(a, id, m).len()
            == 0,
        a.images.in_flight.contains((id, m.timestamp_ms, true)) ==> preview_work(a, id, m).len()
            == 0,
{
}

// ---------------------------------------------------------------------------
// Rows
// ---------------------------------------------------------------------------

/// Rows come newest first, and become messages oldest first: what each says, who wrote
/// it, when, and what became of it. Rows without a time that can be read are left out.
pub proof fn rows_become_messages(rows: Seq<MessageRowView>)
    requires
        forall|i: int| 0 <= i < rows.len() ==> rfc3339_time((#[trigger] rows[i]).timestamp) is Some,
    ensures
        rows_messages(rows).len() == rows.len(),
        forall|i: int|
            0 <= i < rows.len() ==> {
                let m = #[trigger] rows_messages(rows)[rows.len() - 1 - i];
                &&& m.body == rows[i].body && m.sender == rows[i].sender
                &&& m.timestamp_ms == rows[i].timestamp_ms
                &&& m.is_system == rows[i].is_system
                &&& Some(m.timestamp) == rfc3339_time(rows[i].timestamp)
            },
    decreases rows.len(),
{
    if rows.len() > 0 {
        let rest = rows.skip(1);
        assert forall|i: int| 0 <= i < rest.len() implies rfc3339_time(
            (#[trigger] rest[i]).timestamp,
        ) is Some by {
            assert(rest[i] == rows[i + 1]);
        }
        rows_become_messages(rest);
        let s = rows_messages(rest);
        let t = rows_messages(rows);
        assert forall|i: int| 0 <= i < rows.len() implies {
            let m = #[trigger] t[rows.len() - 1 - i];
            &&& m.body == rows[i].body && m.sender == rows[i].sender
            &&& m.timestamp_ms == rows[i].timestamp_ms
            &&& m.is_system == rows[i].is_system
            &&& Some(m.timestamp) == rfc3339_time(rows[i].timestamp)
        } by {
            if i > 0 {
                assert(t[rows.len() - 1 - i] == s[rest.len() - 1 - (i - 1)]);
                assert(rest[i - 1] == rows[i]);
            }
        }
    }
}

} // verus!
