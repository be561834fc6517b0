use std::collections::VecDeque;
use vstd::prelude::*;

use crate::classify::{classification, classify, kind_of, Classification};
use crate::item::{item_views, ClipboardItem, ItemView};
use crate::sample::{ClipboardSample, PortError, SampleView};

verus! {

/// The most entries the history keeps through recording.
pub const CAPACITY: usize = 100;

/// Shared monitor state: the history, newest first, and the last content
/// that the monitor saw (used only to notice changes).
pub struct ClipboardState {
    pub history: VecDeque<ClipboardItem>,
    pub last_content: String,
}

/// The value of a [`ClipboardState`].
pub struct StateView {
    pub history: Seq<ItemView>,
    pub last: Seq<char>,
}

impl View for ClipboardState {
    type V = StateView;

    open spec fn view(&self) -> StateView {
        StateView { history: item_views(self.history@), last: self.last_content@ }
    }
}

/// One monitor tick: what the read gave (`None` where the read failed), and
/// the identity and time that a new entry made at this tick would carry.
pub struct Tick {
    pub read: Option<SampleView>,
    pub id: Seq<char>,
    pub timestamp: u64,
}

/// The result of a read, with a failure as `None`.
pub open spec fn read_view(r: Result<ClipboardSample, PortError>) -> Option<SampleView> {
    match r {
        Ok(s) => Some(s@),
        Err(_) => None,
    }
}

/// The raw content a sample carries.
pub open spec fn sample_content(s: SampleView) -> Seq<char> {
    match s {
        SampleView::Empty => Seq::empty(),
        SampleView::Text(t) => t,
        SampleView::Image(u) => u,
    }
}

/// `e` put at the front of `h`; where that makes `h` longer than the
/// capacity, the last (oldest) entry goes.
pub open spec fn pushed(h: Seq<ItemView>, e: ItemView) -> Seq<ItemView> {
    let h2 = seq![e] + h;
    if h2.len() > CAPACITY {
        h2.drop_last()
    } else {
        h2
    }
}

/// The state after one tick, and the content to announce, if any.
pub open spec fn step(s: StateView, t: Tick) -> (StateView, Option<Seq<char>>) {
    match t.read {
        None => (s, None),
        Some(sample) => {
            let c = classification(sample, s.last);
            if c == Classification::Ignore {
                (s, None)
            } else {
                let content = sample_content(sample);
                let e = ItemView {
                    id: t.id,
                    content,
                    timestamp: t.timestamp,
                    kind: kind_of(c),
                    image_path: None,
                };
                (StateView { history: pushed(s.history, e), last: content }, Some(content))
            }
        },
    }
}

/// The state after a sequence of ticks, in order.
pub open spec fn run(s: StateView, ticks: Seq<Tick>) -> StateView
    decreases ticks.len(),
{
    if ticks.len() == 0 {
        s
    } else {
        run(step(s, ticks[0]).0, ticks.drop_first())
    }
}

/// Some entry of `h` carries the identity `id`.
pub open spec fn id_in(h: Seq<ItemView>, id: Seq<char>) -> bool {
    exists|j: int| 0 <= j < h.len() && h[j].id == id
}

/// No two entries of `h` carry the same identity.
pub open spec fn ids_distinct(h: Seq<ItemView>) -> bool {
    forall|i: int, j: int| 0 <= i < j < h.len() ==> h[i].id != h[j].id
}

/// The state with its history replaced by `h`.
pub open spec fn replaced(s: StateView, h: Seq<ItemView>) -> StateView {
    StateView { history: h, last: s.last }
}

impl ClipboardState {
    /// An empty history, with nothing seen yet.
    pub fn new() -> (r: Self)
        ensures
            r@.history.len() == 0,
            r@.last.len() == 0,
    {
        ClipboardState { history: VecDeque::new(), last_content: String::new() }
    }

    /// A copy of the history, newest first.
    pub fn get_history(&self) -> (r: Vec<ClipboardItem>)
        ensures
            item_views(r@) == self@.history,
    {
        let n = self.history.len();
        let mut r: Vec<ClipboardItem> = Vec::new();
        let mut i: usize = 0;
        while i < n
            invariant
                n == self.history@.len(),
                i <= n,
                r@.len() == i,
                forall|j: int| 0 <= j < i ==> r@[j]@ == self.history@[j]@,
            decreases n - i,
        {
            let x = self.history[i].duplicate();
            r.push(x);
            i = i + 1;
        }
        assert(item_views(r@) =~= item_views(self.history@));
        r
    }

    /// Whether some entry of the history carries the identity `id`.
    pub fn has_id(&self, id: &String) -> (r: bool)
        ensures
            r == id_in(self@.history, id@),
    {
        let n = self.history.len();
        let mut i: usize = 0;
        while i < n
            invariant
                n == self.history@.len(),
                i <= n,
                forall|j: int| 0 <= j < i ==> self@.history[j].id != id@,
            decreases n - i,
        {
            if self.history[i].id.eq(id) {
                assert(self@.history[i as int].id == id@);
                return true;
            }
            i = i + 1;
        }
        false
    }

    /// Installs `entries` as the whole history, in the given order. The
    /// capacity is not applied here: the caller restores what it saved.
    pub fn replace_history(&mut self, entries: Vec<ClipboardItem>)
        ensures
            final(self)@ == replaced(old(self)@, item_views(entries@)),
            final(self).history@ == entries@,
    {
        let mut rest = entries;
        let mut h: VecDeque<ClipboardItem> = VecDeque::new();
        while rest.len() > 0
            invariant
                rest@ + h@ == entries@,
            decreases rest@.len(),
        {
            let ghost before = rest@;
            let ghost h_before = h@;
            let x = rest.pop().unwrap();
            h.push_front(x);
            assert(rest@ + h@ =~= before.drop_last() + (seq![before.last()] + h_before));
            assert(rest@ + h@ =~= entries@) by {
                assert(before =~= before.drop_last().push(before.last()));
            }
        }
        assert(h@ =~= entries@);
        self.history = h;
    }

    /// Handles one monitor tick: classifies the read and, for new content,
    /// records an entry at the front of the history (evicting the oldest past
    /// the capacity), remembers the content, and returns it for announcement.
    /// Failed reads, noise, empty reads and unchanged content change nothing
    /// and return `None`. The identity given must be new to the history, so a
    /// recorded entry's identity differs from every other entry's.
    pub fn record_read(
        &mut self,
        read: Result<ClipboardSample, PortError>,
        id: String,
        timestamp: u64,
    ) -> (r: Option<String>)
        requires
            !id_in(old(self)@.history, id@),
        ensures
            (final(self)@, match r {
                Some(c) => Some(c@),
                None => None,
            }) == step(old(self)@, Tick { read: read_view(read), id: id@, timestamp }),
            r is Some ==> forall|j: int|
                1 <= j < final(self)@.history.len() ==> #[trigger] final(self)@.history[j].id
                    != final(self)@.history[0].id,
            ids_distinct(old(self)@.history) ==> ids_distinct(final(self)@.history),
    {
        let sample = match read {
            Ok(s) => s,
            Err(_) => return None,
        };
        let c = classify(&sample, &self.last_content);
        if c == Classification::Ignore {
            return None;
        }
        let content = match sample {
            ClipboardSample::Empty => String::new(),
            ClipboardSample::Text(t) => t,
            ClipboardSample::Image(u) => u,
        };
        let kind = if c == Classification::NovelText {
            crate::item::ItemKind::Text
        } else {
            crate::item::ItemKind::Image
        };
        let item = ClipboardItem {
            id,
            content: content.clone(),
            timestamp,
            item_type: kind,
            image_path: None,
        };
        let ghost e = item@;
        let ghost h0 = self.history@;
        self.history.push_front(item);
        assert(item_views(self.history@) =~= seq![e] + item_views(h0));
        if self.history.len() > CAPACITY {
            let _ = self.history.pop_back();
            assert(item_views(self.history@) =~= (seq![e] + item_views(h0)).drop_last());
        }
        proof {
            let h = item_views(self.history@);
            let old_h = item_views(h0);
            assert forall|j: int| 1 <= j < h.len() implies #[trigger] h[j].id != h[0].id by {
                assert(h[j] == old_h[j - 1]);
            }
            if ids_distinct(old_h) {
                assert forall|a: int, b: int| 0 <= a < b < h.len() implies h[a].id != h[b].id by {
                    assert(h[b] == old_h[b - 1]);
                    if a > 0 {
                        assert(h[a] == old_h[a - 1]);
                    }
                }
            }
        }
        self.last_content = content.clone();
        Some(content)
    }
}

} // verus!
