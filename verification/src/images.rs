//! Images: how they are drawn, and which are drawn next.
use crate::app::{App, AppView, Effect, EffectView, ImageProtocol, ImageStateView, Setting};
use crate::conversation_store::{DisplayMessage, DisplayMessageView};
use crate::events::{located, message_in};
use crate::signal::{Duplicate, ImageCell, ImageLines, Rgb};
use crate::text::{occurs_at, same, starts_with};
use vstd::prelude::*;

verus! {

// ---------------------------------------------------------------------------
// How images are shown
// ---------------------------------------------------------------------------

/// How images are shown in a terminal: whether it has a Kitty window, and which
/// program it is.
pub open spec fn protocol_for(kitty_window: bool, program: Option<Seq<char>>) -> ImageProtocol {
    if kitty_window || program == Some("ghostty"@) {
        ImageProtocol::Kitty
    } else if program == Some("iTerm.app"@) || program == Some("WezTerm"@) {
        ImageProtocol::Iterm2
    } else {
        ImageProtocol::Halfblock
    }
}

/// How images are shown in a terminal: whether it has a Kitty window, and which
/// program it is.
pub fn detect_protocol(kitty_window: bool, program: Option<&str>) -> (r: ImageProtocol)
    ensures
        r == protocol_for(
            kitty_window,
            match program {
                Some(p) => Some(p@),
                None => None,
            },
        ),
{
    if kitty_window {
        return ImageProtocol::Kitty;
    }
    if let Some(p) = program {
        if same(p, "ghostty") {
            return ImageProtocol::Kitty;
        }
        if same(p, "iTerm.app") || same(p, "WezTerm") {
            return ImageProtocol::Iterm2;
        }
    }
    ImageProtocol::Halfblock
}

/// A dot of an image.
#[derive(Debug, Clone, Copy, PartialEq, Eq, Structural)]
pub struct Pixel {
    pub red: u8,
    pub green: u8,
    pub blue: u8,
    /// How far one does not see through it.
    pub alpha: u8,
}

impl DeepView for Pixel {
    type V = Pixel;

    open spec fn deep_view(&self) -> Pixel {
        *self
    }
}

/// The colour of a dot; none where one sees more than half through it.
pub open spec fn shade(p: Pixel) -> Option<Rgb> {
    if p.alpha < 128 {
        None
    } else {
        Some(Rgb { red: p.red, green: p.green, blue: p.blue })
    }
}

/// The cell at a place: the dot there in the upper row and in the lower one. Below
/// the last row there is nothing.
pub open spec fn half_cell(rows: Seq<Seq<Pixel>>, row: int, x: int) -> ImageCell {
    ImageCell {
        upper: shade(rows[2 * row][x]),
        lower: if 2 * row + 1 < rows.len() && x < rows[2 * row + 1].len() {
            shade(rows[2 * row + 1][x])
        } else {
            None
        },
    }
}

/// An image drawn with half blocks: a line for each two rows of dots.
pub open spec fn half_blocks(rows: Seq<Seq<Pixel>>) -> Seq<Seq<ImageCell>> {
    Seq::new(
        ((rows.len() + 1) / 2) as nat,
        |r: int| Seq::new(rows[2 * r].len(), |x: int| half_cell(rows, r, x)),
    )
}

/// An image drawn with half blocks; none for an image without dots.
pub open spec fn image_drawn(rows: Seq<Seq<Pixel>>) -> Option<Seq<Seq<ImageCell>>> {
    if rows.len() == 0 || rows[0].len() == 0 {
        None
    } else {
        Some(half_blocks(rows))
    }
}

fn shade_of(p: Pixel) -> (r: Option<Rgb>)
    ensures
        r == shade(p),
{
    if p.alpha < 128 {
        None
    } else {
        Some(Rgb { red: p.red, green: p.green, blue: p.blue })
    }
}

fn draw_line(rows: &Vec<Vec<Pixel>>, r: usize) -> (line: Vec<ImageCell>)
    requires
        2 * r < rows.len(),
    ensures
        line.deep_view() == half_blocks(rows.deep_view())[r as int],
{
    let ghost s = rows.deep_view();
    let top = 2 * r;
    let mut line: Vec<ImageCell> = Vec::new();
    let mut x: usize = 0;
    assert(s[top as int].len() == rows@[top as int]@.len());
    while x < rows[top].len()
        invariant
            top == 2 * r,
            top < rows.len(),
            s == rows.deep_view(),
            x <= rows@[top as int]@.len(),
            line@.len() == x,
            forall|k: int| 0 <= k < x ==> #[trigger] line@[k] == half_cell(s, r as int, k),
        decreases rows@[top as int]@.len() - x,
    {
        assert(s[top as int][x as int] == rows@[top as int]@[x as int]);
        let upper = shade_of(rows[top][x]);
        let lower = if top + 1 < rows.len() && x < rows[top + 1].len() {
            assert(s[top + 1][x as int] == rows@[top + 1]@[x as int]);
            shade_of(rows[top + 1][x])
        } else {
            None
        };
        line.push(ImageCell { upper, lower });
        x += 1;
    }
    assert(line.deep_view() =~= half_blocks(s)[r as int]);
    line
}

/// An image drawn with half blocks, of rows of dots; none for an image without
/// dots.
pub fn draw_image(rows: &Vec<Vec<Pixel>>) -> (r: Option<ImageLines>)
    ensures
        r.deep_view() == image_drawn(rows.deep_view()),
{
    let ghost s = rows.deep_view();
    if rows.len() == 0 || rows[0].len() == 0 {
        assert(rows@.len() > 0 ==> s[0].len() == rows@[0]@.len());
        return None;
    }
    assert(s[0].len() == rows@[0]@.len());
    let n = rows.len() / 2 + rows.len() % 2;
    assert(n == half_blocks(s).len());
    let mut lines: Vec<Vec<ImageCell>> = Vec::new();
    let mut i: usize = 0;
    while i < n
        invariant
            i <= n,
            n == rows.len() / 2 + rows.len() % 2,
            n == half_blocks(s).len(),
            s == rows.deep_view(),
            lines@.len() == i,
            forall|k: int| 0 <= k < i ==> (#[trigger] lines@[k]).deep_view() == half_blocks(s)[k],
        decreases n - i,
    {
        let line = draw_line(rows, i);
        lines.push(line);
        i += 1;
    }
    assert(lines.deep_view() =~= half_blocks(s));
    Some(lines)
}

// ---------------------------------------------------------------------------
// Which images are drawn
// ---------------------------------------------------------------------------

/// How many images are drawn at a time.
pub const IMAGES_AT_A_TIME: usize = 4;

/// How far from the bottom up images are drawn.
pub const IMAGE_WINDOW: usize = 60;

/// How many messages below those shown have their images drawn.
pub const IMAGE_MARGIN: usize = 5;

/// The width of an image.
pub const IMAGE_WIDTH: u32 = 40;

/// The width of a thumbnail.
pub const PREVIEW_WIDTH: u32 = 30;

/// The end of the messages whose images are drawn.
pub open spec fn window_end(len: nat, offset: usize) -> int {
    let below = if offset > IMAGE_MARGIN {
        offset - IMAGE_MARGIN
    } else {
        0
    };
    if below < len {
        len - below
    } else {
        0
    }
}

/// The start of the messages whose images are drawn.
pub open spec fn window_start(end: int) -> int {
    if end > IMAGE_WINDOW {
        end - IMAGE_WINDOW
    } else {
        0
    }
}

/// The drawing that a message itself asks for.
pub open spec fn picture_work(a: AppView, id: Seq<char>, m: DisplayMessageView) -> Seq<EffectView> {
    if occurs_at(m.body, "[image:"@, 0) && m.image_lines is None && m.image_path is Some
        && !a.images.in_flight.contains((id, m.timestamp_ms, false)) {
        seq![
            EffectView::RenderImage {
                conversation: id,
                timestamp_ms: m.timestamp_ms,
                is_preview: false,
                path: m.image_path->0,
                max_width: IMAGE_WIDTH,
            },
        ]
    } else {
        Seq::empty()
    }
}

/// The drawing that the link in a message asks for.
pub open spec fn preview_work(a: AppView, id: Seq<char>, m: DisplayMessageView) -> Seq<EffectView> {
    if a.on(Setting::ShowLinkPreviews) && m.preview_image_lines is None && m.preview is Some
        && m.preview->0.image_path is Some && !a.images.in_flight.contains(
        (id, m.timestamp_ms, true),
    ) {
        seq![
            EffectView::RenderImage {
                conversation: id,
                timestamp_ms: m.timestamp_ms,
                is_preview: true,
                path: m.preview->0.image_path->0,
                max_width: PREVIEW_WIDTH,
            },
        ]
    } else {
        Seq::empty()
    }
}

/// What is to be drawn for messages from `k` to `end`, on top of `work`. Only a
/// few images are drawn at a time.
pub open spec fn image_work(
    a: AppView,
    id: Seq<char>,
    s: Seq<DisplayMessageView>,
    k: int,
    end: int,
    work: Seq<EffectView>,
) -> Seq<EffectView>
    decreases end - k,
{
    if k >= end || a.images.in_flight.len() + work.len() >= IMAGES_AT_A_TIME {
        work
    } else {
        image_work(
            a,
            id,
            s,
            k + 1,
            end,
            work + picture_work(a, id, s[k]) + preview_work(a, id, s[k]),
        )
    }
}

/// What is to be drawn next.
pub open spec fn images_wanted(a: AppView) -> Seq<EffectView> {
    match a.active() {
        Some(c) => if a.on(Setting::InlineImages) {
            let end = window_end(c.messages.len(), a.scroll.offset);
            image_work(
                a,
                a.active_conversation->0,
                c.messages,
                window_start(end),
                end,
                Seq::empty(),
            )
        } else {
            Seq::empty()
        },
        None => Seq::empty(),
    }
}

/// Drawings that are under way, with one more.
pub open spec fn flight_noted(
    s: Seq<(Seq<char>, i64, bool)>,
    e: EffectView,
) -> Seq<(Seq<char>, i64, bool)> {
    match e {
        EffectView::RenderImage { conversation, timestamp_ms, is_preview, .. } => if s.contains(
            (conversation, timestamp_ms, is_preview),
        ) {
            s
        } else {
            s.push((conversation, timestamp_ms, is_preview))
        },
        _ => s,
    }
}

/// Drawings that are under way, with the first `n` of those asked for.
pub open spec fn flights_noted(
    s: Seq<(Seq<char>, i64, bool)>,
    work: Seq<EffectView>,
    n: int,
) -> Seq<(Seq<char>, i64, bool)>
    decreases n,
{
    if n <= 0 {
        s
    } else {
        flight_noted(flights_noted(s, work, n - 1), work[n - 1])
    }
}

/// The state with the images asked for that are to be drawn next.
pub open spec fn images_asked(a: AppView) -> AppView {
    let work = images_wanted(a);
    AppView {
        images: ImageStateView {
            in_flight: flights_noted(a.images.in_flight, work, work.len() as int),
            ..a.images
        },
        effects: a.effects + work,
        ..a
    }
}

/// The state with a drawing no more under way.
pub open spec fn flight_landed(a: AppView, id: Seq<char>, ts: i64, is_preview: bool) -> AppView {
    AppView {
        images: ImageStateView {
            in_flight: a.images.in_flight.filter(
                |k: (Seq<char>, i64, bool)| k != (id, ts, is_preview),
            ),
            ..a.images
        },
        ..a
    }
}

/// A message with its image, or the thumbnail of its link. One that could not be
/// drawn has no lines, so that it is not tried again.
pub open spec fn message_drawn(
    m: DisplayMessageView,
    is_preview: bool,
    lines: Option<Seq<Seq<ImageCell>>>,
    path: Option<Seq<char>>,
) -> DisplayMessageView {
    let l = match lines {
        Some(l) => l,
        None => Seq::empty(),
    };
    if is_preview {
        DisplayMessageView {
            preview_image_lines: Some(l),
            preview_image_path: if path is Some {
                path
            } else {
                m.preview_image_path
            },
            ..m
        }
    } else {
        DisplayMessageView { image_lines: Some(l), ..m }
    }
}

/// The state after an image was drawn, and whether a message shows it.
pub open spec fn image_arrived(
    a: AppView,
    id: Seq<char>,
    ts: i64,
    is_preview: bool,
    lines: Option<Seq<Seq<ImageCell>>>,
    path: Option<Seq<char>>,
) -> (AppView, bool) {
    let b = flight_landed(a, id, ts, is_preview);
    match located(b, id, ts) {
        Some(i) => (
            b.with_msg(id, i, message_drawn(message_in(b, id, i), is_preview, lines, path)),
            true,
        ),
        None => (b, false),
    }
}

/// No more than one image beyond the limit is asked for, however many messages
/// have one.
pub proof fn few_images_at_a_time(a: AppView)
    requires
        a.images.in_flight.len() <= IMAGES_AT_A_TIME,
    ensures
        a.images.in_flight.len() + images_wanted(a).len() <= IMAGES_AT_A_TIME + 1,
{
    match a.active() {
        Some(c) => {
            let end = window_end(c.messages.len(), a.scroll.offset);
            work_is_bounded(
                a,
                a.active_conversation->0,
                c.messages,
                window_start(end),
                end,
                Seq::empty(),
            );
        },
        None => {},
    }
}

proof fn work_is_bounded(
    a: AppView,
    id: Seq<char>,
    s: Seq<DisplayMessageView>,
    k: int,
    end: int,
    work: Seq<EffectView>,
)
    requires
        a.images.in_flight.len() + work.len() <= IMAGES_AT_A_TIME + 1,
    ensures
        a.images.in_flight.len() + image_work(a, id, s, k, end, work).len() <= IMAGES_AT_A_TIME + 1,
    decreases end - k,
{
    if k < end && a.images.in_flight.len() + work.len() < IMAGES_AT_A_TIME {
        work_is_bounded(
            a,
            id,
            s,
            k + 1,
            end,
            work + picture_work(a, id, s[k]) + preview_work(a, id, s[k]),
        );
    }
}

fn flies(v: &Vec<(String, i64, bool)>, id: &str, ts: i64, is_preview: bool) -> (r: bool)
    ensures
        r == v.deep_view().contains((id@, ts, is_preview)),
{
    let ghost s = v.deep_view();
    let mut i: usize = 0;
    while i < v.len()
        invariant
            i <= v@.len(),
            s == v.deep_view(),
            forall|j: int| 0 <= j < i ==> #[trigger] s[j] != (id@, ts, is_preview),
        decreases v@.len() - i,
    {
        assert(s[i as int] == v@[i as int].deep_view());
        if same(v[i].0.as_str(), id) && v[i].1 == ts && v[i].2 == is_preview {
            assert(s[i as int] == (id@, ts, is_preview));
            return true;
        }
        i += 1;
    }
    false
}

impl App {
    fn picture_of(&self, id: &String, m: &DisplayMessage, out: &mut Vec<Effect>)
        ensures
            final(out).deep_view() == old(out).deep_view() + picture_work(
                self.state(),
                id@,
                m.deep_view(),
            ),
    {
        let ghost before = out.deep_view();
        assert(self.images.in_flight.deep_view() == self.state().images.in_flight) by {
            reveal(App::state);
        }
        if starts_with(m.body.as_str(), "[image:") && m.image_lines.is_none() {
            if let Some(p) = &m.image_path {
                if !flies(&self.images.in_flight, id.as_str(), m.timestamp_ms, false) {
                    let e = Effect::RenderImage {
                        conversation: id.clone(),
                        timestamp_ms: m.timestamp_ms,
                        is_preview: false,
                        path: p.clone(),
                        max_width: IMAGE_WIDTH,
                    };
                    out.push(e);
                    assert(out.deep_view() =~= before.push(e.deep_view()));
                }
            }
        }
        assert(out.deep_view() =~= before + picture_work(self.state(), id@, m.deep_view()));
    }

    fn preview_of(&self, id: &String, m: &DisplayMessage, out: &mut Vec<Effect>)
        ensures
            final(out).deep_view() == old(out).deep_view() + preview_work(
                self.state(),
                id@,
                m.deep_view(),
            ),
    {
        let ghost before = out.deep_view();
        assert(self.images.in_flight.deep_view() == self.state().images.in_flight) by {
            reveal(App::state);
        }
        if self.is_on(Setting::ShowLinkPreviews) && m.preview_image_lines.is_none() {
            if let Some(preview) = &m.preview {
                if let Some(p) = &preview.image_path {
                    if !flies(&self.images.in_flight, id.as_str(), m.timestamp_ms, true) {
                        let e = Effect::RenderImage {
                            conversation: id.clone(),
                            timestamp_ms: m.timestamp_ms,
                            is_preview: true,
                            path: p.clone(),
                            max_width: PREVIEW_WIDTH,
                        };
                        out.push(e);
                        assert(out.deep_view() =~= before.push(e.deep_view()));
                    }
                }
            }
        }
        assert(out.deep_view() =~= before + preview_work(self.state(), id@, m.deep_view()));
    }

    fn collect_work(&self, id: &String, v: &Vec<DisplayMessage>, start: usize, end: usize) -> (r:
        Vec<Effect>)
        requires
            start <= end <= v@.len(),
        ensures
            r.deep_view() == image_work(
                self.state(),
                id@,
                v.deep_view(),
                start as int,
                end as int,
                Seq::empty(),
            ),
    {
        let ghost a = self.state();
        let ghost s = v.deep_view();
        let flying = self.images.in_flight.len();
        assert(flying == a.images.in_flight.len()) by {
            reveal(App::state);
        }
        let mut work: Vec<Effect> = Vec::new();
        assert(work.deep_view() =~= Seq::<EffectView>::empty());
        let mut k: usize = start;
        while k < end && flying < IMAGES_AT_A_TIME && work.len() < IMAGES_AT_A_TIME - flying
            invariant
                start <= k <= end <= v@.len(),
                a == self.state(),
                s == v.deep_view(),
                flying == a.images.in_flight.len(),
                image_work(a, id@, s, start as int, end as int, Seq::empty()) == image_work(
                    a,
                    id@,
                    s,
                    k as int,
                    end as int,
                    work.deep_view(),
                ),
            decreases end - k,
        {
            assert(s[k as int] == v@[k as int].deep_view());
            self.picture_of(id, &v[k], &mut work);
            self.preview_of(id, &v[k], &mut work);
            k += 1;
        }
        work
    }

    fn wanted(&self) -> (r: Vec<Effect>)
        ensures
            r.deep_view() == images_wanted(self.state()),
    {
        let inline = self.is_on(Setting::InlineImages);
        let none: Vec<Effect> = Vec::new();
        assert(none.deep_view() =~= Seq::<EffectView>::empty());
        let offset = self.scroll.offset;
        assert(self.active_conversation.deep_view() == self.state().active_conversation
            && self.store.conversations.deep_view() == self.state().store.conversations && offset
            == self.state().scroll.offset) by {
            reveal(App::state);
        }
        if !inline {
            return none;
        }
        match &self.active_conversation {
            Some(id) => match self.store.conversations.get(id.as_str()) {
                Some(c) => {
                    let end = c.messages.len().saturating_sub(offset.saturating_sub(IMAGE_MARGIN));
                    let start = end.saturating_sub(IMAGE_WINDOW);
                    self.collect_work(id, &c.messages, start, end)
                },
                None => none,
            },
            None => none,
        }
    }

    fn note_flights(&mut self, work: Vec<Effect>)
        ensures
            final(self).state() == ({
                let a = old(self).state();
                let w = work.deep_view();
                AppView {
                    images: ImageStateView {
                        in_flight: flights_noted(a.images.in_flight, w, w.len() as int),
                        ..a.images
                    },
                    effects: a.effects + w,
                    ..a
                }
            }),
    {
        reveal(App::state);
        let ghost w = work.deep_view();
        let ghost s = self.images.in_flight.deep_view();
        let ghost asked = self.effects.deep_view();
        let mut i: usize = 0;
        while i < work.len()
            invariant
                i <= work@.len(),
                w == work.deep_view(),
                *self == (App {
                    images: crate::app::ImageState {
                        in_flight: self.images.in_flight,
                        ..old(self).images
                    },
                    ..*old(self)
                }),
                self.images.in_flight.deep_view() == flights_noted(s, w, i as int),
            decreases work@.len() - i,
        {
            assert(w[i as int] == work@[i as int].deep_view());
            let ghost before = self.images.in_flight.deep_view();
            if let Effect::RenderImage { conversation, timestamp_ms, is_preview, .. } = &work[i] {
                if !flies(
                    &self.images.in_flight,
                    conversation.as_str(),
                    *timestamp_ms,
                    *is_preview,
                ) {
                    let k = (conversation.clone(), *timestamp_ms, *is_preview);
                    self.images.in_flight.push(k);
                    assert(self.images.in_flight.deep_view() =~= before.push(k.deep_view()));
                }
            }
            i += 1;
        }
        let mut work = work;
        self.effects.append(&mut work);
        assert(self.effects.deep_view() =~= asked + w);
    }

    /// Asks for the images that are to be drawn next.
    pub fn ensure_active_images(&mut self)
        ensures
            final(self).state() == images_asked(old(self).state()),
    {
        let work = self.wanted();
        self.note_flights(work);
    }

    fn land_flight(&mut self, id: &str, ts: i64, is_preview: bool)
        ensures
            final(self).state() == flight_landed(old(self).state(), id@, ts, is_preview),
    {
        reveal(App::state);
        let ghost s = self.images.in_flight.deep_view();
        let ghost p = |k: (Seq<char>, i64, bool)| k != (id@, ts, is_preview);
        let mut kept: Vec<(String, i64, bool)> = Vec::new();
        let mut i: usize = 0;
        proof {
            crate::common::filter_none(s, p);
        }
        assert(kept.deep_view() =~= s.take(0).filter(p));
        while i < self.images.in_flight.len()
            invariant
                i <= self.images.in_flight@.len(),
                s == self.images.in_flight.deep_view(),
                p == |k: (Seq<char>, i64, bool)| k != (id@, ts, is_preview),
                kept.deep_view() == s.take(i as int).filter(p),
            decreases self.images.in_flight@.len() - i,
        {
            proof {
                crate::common::filter_take(s, i as int, p);
                assert(s[i as int] == self.images.in_flight@[i as int].deep_view());
            }
            let k = self.images.in_flight[i].duplicate();
            if !(same(k.0.as_str(), id) && k.1 == ts && k.2 == is_preview) {
                let ghost before = kept.deep_view();
                kept.push(k);
                assert(kept.deep_view() =~= before.push(s[i as int]));
            }
            i += 1;
        }
        assert(s.take(s.len() as int) =~= s);
        self.images.in_flight = kept;
    }

    /// Takes an image that was drawn. Says whether a message shows it.
    pub fn image_rendered(
        &mut self,
        id: &str,
        timestamp_ms: i64,
        is_preview: bool,
        lines: Option<ImageLines>,
        path: Option<String>,
    ) -> (r: bool)
        ensures
            (final(self).state(), r) == image_arrived(
                old(self).state(),
                id@,
                timestamp_ms,
                is_preview,
                lines.deep_view(),
                path.deep_view(),
            ),
    {
        self.land_flight(id, timestamp_ms, is_preview);
        match self.locate(id, timestamp_ms) {
            Some((i, mut m)) => {
                let drawn = match lines {
                    Some(l) => l,
                    None => {
                        let none: ImageLines = Vec::new();
                        assert(none.deep_view() =~= Seq::<Seq<ImageCell>>::empty());
                        none
                    },
                };
                if is_preview {
                    m.preview_image_lines = Some(drawn);
                    if path.is_some() {
                        m.preview_image_path = path;
                    }
                } else {
                    m.image_lines = Some(drawn);
                }
                self.replace_message(id, i, m);
                true
            },
            None => false,
        }
    }
}

} // verus!
