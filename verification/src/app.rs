//! State of the dashboard: the tabs, their cursors and histories, and the
//! transitions that input, ticks and responses cause.

use vstd::prelude::*;
use vstd::string::*;
use std::collections::VecDeque;
use crate::akka::model::{
    ActorSystemStatus,
    ActorTreeNode,
    AkkaSettings,
    ClusterMember,
    DeadLettersMessage,
    DeadLettersSnapshot,
    DeadLettersUIMessage,
    DeadLettersWindow,
    DroppedMessage,
    Timestamped,
    UnhandledMessage,
};
use crate::fetcher::{FetcherRequest, FetcherResponse};
use crate::history::{record, recorded};
use crate::jmx::model::{HikariMetrics, JMXConnectionSettings, SlickConfig, SlickMetrics};
use crate::text::chars_of;
use crate::widgets::tree::{
    column_width,
    node_views,
    row_text,
    tree_list_widget,
    tree_rows,
    NodeView,
};
use crate::zio::model::{Fiber, FiberCount, FiberStatus};

verus! {

/// A fiber as the list shows it: its line in the tree and its dump.
#[derive(Debug, PartialEq, Eq, Clone)]
pub struct UIFiber {
    pub label: String,
    pub dump: String,
}

/// The kinds of tab, one per backend.
#[derive(Debug, PartialEq, Eq, Hash, Clone, Copy, Structural)]
pub enum AppTabKind {
    ZMX,
    Slick,
    Akka,
}

/// A tab: its kind and the title on its handle.
#[derive(Debug, PartialEq, Eq, Clone)]
pub struct Tab<K> {
    pub kind: K,
    pub title: String,
}

/// A row of tabs and the index of the one in front.
#[derive(Debug, PartialEq, Eq, Clone)]
pub struct TabsState<K> {
    pub tabs: Vec<Tab<K>>,
    pub index: usize,
}

impl<K> TabsState<K> {
    /// There is a tab, and the index names one.
    pub open spec fn wf(self) -> bool {
        self.index < self.tabs@.len()
    }

    /// Tells whether there is a tab and the index names one.
    pub fn well_formed(&self) -> (ok: bool)
        ensures
            ok == self.wf(),
    {
        self.index < self.tabs.len()
    }

    /// The tabs with the first in front.
    pub fn new(tabs: Vec<Tab<K>>) -> (state: TabsState<K>)
        ensures
            state.tabs == tabs,
            state.index == 0,
    {
        TabsState { tabs, index: 0 }
    }

    /// Brings the next tab to the front, the first after the last.
    pub fn next(&mut self)
        requires
            old(self).wf(),
        ensures
            final(self).tabs == old(self).tabs,
            final(self).index == (old(self).index + 1) % (old(self).tabs@.len() as int),
            final(self).wf(),
    {
        let len = self.tabs.len();
        self.index = (self.index + 1) % len;
    }

    /// Brings the previous tab to the front, the last before the first.
    pub fn previous(&mut self)
        requires
            old(self).wf(),
        ensures
            final(self).tabs == old(self).tabs,
            final(self).index == if old(self).index > 0 {
                old(self).index - 1
            } else {
                old(self).tabs@.len() - 1
            },
            final(self).wf(),
    {
        if self.index > 0 {
            self.index -= 1;
        } else {
            self.index = self.tabs.len() - 1;
        }
    }

    /// The tab in front.
    pub fn current(&self) -> (tab: &Tab<K>)
        requires
            self.wf(),
        ensures
            *tab == self.tabs@[self.index as int],
    {
        &self.tabs[self.index]
    }

    /// The titles of the tabs, in order.
    pub fn titles(&self) -> (titles: Vec<&String>)
        ensures
            titles@.len() == self.tabs@.len(),
            forall|i: int| 0 <= i < titles@.len() ==> *(#[trigger] titles@[i]) == self.tabs@[i].title,
    {
        let mut titles: Vec<&String> = Vec::new();
        let mut i: usize = 0;
        while i < self.tabs.len()
            invariant
                i <= self.tabs@.len(),
                titles@.len() == i,
                forall|j: int| 0 <= j < i ==> *(#[trigger] titles@[j]) == self.tabs@[j].title,
            decreases self.tabs@.len() - i,
        {
            titles.push(&self.tabs[i].title);
            i = i + 1;
        }
        titles
    }
}

/// The index that follows `selected` in a list of `len` items: the first
/// after the last, and the first when nothing is selected.
pub open spec fn index_after(selected: Option<usize>, len: nat) -> usize {
    match selected {
        Some(i) => if i + 1 >= len {
            0
        } else {
            (i + 1) as usize
        },
        None => 0,
    }
}

/// The index that precedes `selected` in a list of `len` items: the last
/// before the first, and the first when nothing is selected.
pub open spec fn index_before(selected: Option<usize>, len: nat) -> usize {
    match selected {
        Some(i) => if i == 0 {
            if len == 0 {
                0
            } else {
                (len - 1) as usize
            }
        } else {
            (i - 1) as usize
        },
        None => 0,
    }
}

/// A list with a cursor that wraps around.
#[derive(Debug, PartialEq, Eq, Clone)]
pub struct StatefulList<T> {
    pub selected: Option<usize>,
    pub items: Vec<T>,
}

impl<T> StatefulList<T> {
    /// The list of `items` with nothing selected.
    pub fn with_items(items: Vec<T>) -> (list: StatefulList<T>)
        ensures
            list.items == items,
            list.selected is None,
    {
        StatefulList { selected: None, items }
    }

    /// The item under the cursor, if the cursor is on one.
    pub fn selected(&self) -> (item: Option<&T>)
        ensures
            match self.selected {
                Some(i) if i < self.items@.len() => item == Some(&self.items@[i as int]),
                _ => item is None,
            },
    {
        match self.selected {
            Some(i) => if i < self.items.len() {
                Some(&self.items[i])
            } else {
                None
            },
            None => None,
        }
    }

    /// Moves the cursor to the next item.
    pub fn next(&mut self)
        ensures
            final(self).items == old(self).items,
            final(self).selected == Some(index_after(old(self).selected, old(self).items@.len())),
    {
        let i = match self.selected {
            Some(i) => if i >= self.items.len() || i + 1 >= self.items.len() {
                0
            } else {
                i + 1
            },
            None => 0,
        };
        self.selected = Some(i);
    }

    /// Moves the cursor to the previous item.
    pub fn previous(&mut self)
        ensures
            final(self).items == old(self).items,
            final(self).selected == Some(index_before(old(self).selected, old(self).items@.len())),
    {
        let i = match self.selected {
            Some(i) => if i == 0 {
                if self.items.len() == 0 {
                    0
                } else {
                    self.items.len() - 1
                }
            } else {
                i - 1
            },
            None => 0,
        };
        self.selected = Some(i);
    }
}

/// The tab of the connection pool: executor gauges and limits, and the
/// pool gauges where the pool exposes them.
#[derive(Debug, PartialEq, Eq, Clone)]
pub struct SlickTab {
    pub has_hikari: bool,
    pub slick_metrics: VecDeque<SlickMetrics>,
    pub slick_config: SlickConfig,
    pub hikari_metrics: VecDeque<HikariMetrics>,
}

impl SlickTab {
    pub const MAX_SLICK_MEASURES: usize = 25;

    pub const MAX_HIKARI_MEASURES: usize = 100;

    /// The tab has no history, knows no limits and shows no pool gauges.
    pub open spec fn is_fresh(self) -> bool {
        &&& !self.has_hikari
        &&& self.slick_metrics@ == Seq::<SlickMetrics>::empty()
        &&& self.hikari_metrics@ == Seq::<HikariMetrics>::empty()
        &&& self.slick_config == (SlickConfig { max_threads: 0, max_queue_size: 0 })
    }

    /// A tab without history.
    pub fn new() -> (tab: SlickTab)
        ensures
            tab.is_fresh(),
    {
        SlickTab {
            has_hikari: false,
            slick_metrics: VecDeque::new(),
            slick_config: SlickConfig { max_threads: 0, max_queue_size: 0 },
            hikari_metrics: VecDeque::new(),
        }
    }

    pub fn replace_slick_config(&mut self, m: SlickConfig)
        ensures
            final(self).slick_config == m,
            final(self).has_hikari == old(self).has_hikari,
            final(self).slick_metrics == old(self).slick_metrics,
            final(self).hikari_metrics == old(self).hikari_metrics,
    {
        self.slick_config = m
    }

    /// Records a sample of the executor gauges.
    pub fn append_slick_metrics(&mut self, m: SlickMetrics)
        ensures
            final(self).slick_metrics@ == recorded(old(self).slick_metrics@, m, 25),
            final(self).has_hikari == old(self).has_hikari,
            final(self).slick_config == old(self).slick_config,
            final(self).hikari_metrics == old(self).hikari_metrics,
    {
        record(&mut self.slick_metrics, m, Self::MAX_SLICK_MEASURES);
    }

    /// Records a sample of the pool gauges.
    pub fn append_hikari_metrics(&mut self, m: HikariMetrics)
        ensures
            final(self).hikari_metrics@ == recorded(old(self).hikari_metrics@, m, 100),
            final(self).has_hikari == old(self).has_hikari,
            final(self).slick_config == old(self).slick_config,
            final(self).slick_metrics == old(self).slick_metrics,
    {
        record(&mut self.hikari_metrics, m, Self::MAX_HIKARI_MEASURES);
    }
}


/// Number of line breaks in `s`.
pub open spec fn newline_count(s: Seq<char>) -> nat
    decreases s.len(),
{
    if s.len() == 0 {
        0
    } else {
        newline_count(s.drop_last()) + if s.last() == '\n' {
            1nat
        } else {
            0nat
        }
    }
}

/// Number of lines of `s`: a line ends at a line break or at the end of
/// the text, and an empty text has none.
pub open spec fn line_count(s: Seq<char>) -> nat {
    newline_count(s) + if s.len() > 0 && s.last() != '\n' {
        1nat
    } else {
        0nat
    }
}

/// The number of lines as the scroll bound holds it, in sixteen bits.
pub open spec fn scroll_bound(s: Seq<char>) -> u16 {
    (line_count(s) % 0x10000) as u16
}

/// How many of `fibers` are in `status`.
pub open spec fn count_in(fibers: Seq<Fiber>, status: FiberStatus) -> nat
    decreases fibers.len(),
{
    if fibers.len() == 0 {
        0
    } else {
        count_in(fibers.drop_last(), status) + if fibers.last().status == status {
            1nat
        } else {
            0nat
        }
    }
}

/// A count as a counter holds it: counters stop at their largest value.
pub open spec fn capped(n: nat) -> i32 {
    if n > i32::MAX {
        i32::MAX
    } else {
        n as i32
    }
}

/// The counts of `fibers` by status.
pub open spec fn fiber_count(fibers: Seq<Fiber>) -> FiberCount {
    FiberCount {
        done: capped(count_in(fibers, FiberStatus::Done)),
        finishing: capped(count_in(fibers, FiberStatus::Finishing)),
        running: capped(count_in(fibers, FiberStatus::Running)),
        suspended: capped(count_in(fibers, FiberStatus::Suspended)),
    }
}

/// The tab of the fiber runtime: the fibers as a tree, the dump of the
/// selected one, and the history of the fiber counts.
#[derive(Debug, PartialEq, Eq)]
pub struct ZMXTab {
    pub fibers: StatefulList<String>,
    pub selected_fiber_dump: (String, u16),
    pub fiber_dump_all: Vec<String>,
    pub scroll: u16,
    pub fiber_counts: VecDeque<FiberCount>,
}

impl ZMXTab {
    pub const MAX_FIBER_COUNT_MEASURES: usize = 100;

    /// Every line of the list has its dump, and the cursor is on a line
    /// or at the top.
    pub open spec fn wf(self) -> bool {
        &&& self.fibers.items@.len() == self.fiber_dump_all@.len()
        &&& match self.fibers.selected {
            Some(i) => i == 0 || i < self.fibers.items@.len(),
            None => true,
        }
    }

    /// Tells whether every line has its dump and the cursor is in place.
    pub fn well_formed(&self) -> (ok: bool)
        ensures
            ok == self.wf(),
    {
        self.fibers.items.len() == self.fiber_dump_all.len() && match self.fibers.selected {
            Some(i) => i == 0 || i < self.fibers.items.len(),
            None => true,
        }
    }

    /// The tab shows no fiber and has no history.
    pub open spec fn is_fresh(self) -> bool {
        &&& self.fibers.items@.len() == 0
        &&& self.fibers.selected is None
        &&& self.selected_fiber_dump.0@ == Seq::<char>::empty()
        &&& self.selected_fiber_dump.1 == 1
        &&& self.fiber_dump_all@.len() == 0
        &&& self.scroll == 0
        &&& self.fiber_counts@ == Seq::<FiberCount>::empty()
    }

    /// A tab that shows no fiber and has no history.
    pub fn new() -> (tab: ZMXTab)
        ensures
            tab.wf(),
            tab.is_fresh(),
    {
        ZMXTab {
            fibers: StatefulList::with_items(Vec::new()),
            selected_fiber_dump: (String::new(), 1),
            fiber_dump_all: Vec::new(),
            scroll: 0,
            fiber_counts: VecDeque::new(),
        }
    }

    fn append_fiber_count(&mut self, c: FiberCount)
        ensures
            final(self).fiber_counts@ == recorded(old(self).fiber_counts@, c, 100),
            final(self).fibers == old(self).fibers,
            final(self).selected_fiber_dump == old(self).selected_fiber_dump,
            final(self).fiber_dump_all == old(self).fiber_dump_all,
            final(self).scroll == old(self).scroll,
    {
        record(&mut self.fiber_counts, c, Self::MAX_FIBER_COUNT_MEASURES);
    }

    /// `self` shows the dump of line `n` of `before` from its top, and is
    /// `before` otherwise.
    pub open spec fn shows(self, before: ZMXTab, n: int) -> bool {
        &&& self.selected_fiber_dump.0 == before.fiber_dump_all@[n]
        &&& self.selected_fiber_dump.1 == scroll_bound(before.fiber_dump_all@[n]@)
        &&& self.scroll == 0
        &&& self.fibers.items == before.fibers.items
        &&& self.fiber_dump_all == before.fiber_dump_all
        &&& self.fiber_counts == before.fiber_counts
    }

    /// `self` is `before` with the cursor moved to line `n` and the dump of
    /// that line on show; without fibers it is `before`.
    pub open spec fn moved_to(self, before: ZMXTab, n: usize) -> bool {
        if before.fibers.items@.len() == 0 {
            self == before
        } else {
            self.fibers.selected == Some(n) && self.shows(before, n as int)
        }
    }

    /// Moves the cursor to the previous fiber and shows its dump. Without
    /// fibers nothing changes.
    pub fn select_prev_fiber(&mut self)
        requires
            old(self).wf(),
        ensures
            final(self).wf(),
            final(self).moved_to(
                *old(self),
                index_before(old(self).fibers.selected, old(self).fibers.items@.len()),
            ),
    {
        if self.fibers.items.len() > 0 {
            self.fibers.previous();
            self.on_fiber_change()
        }
    }

    /// Moves the cursor to the next fiber and shows its dump. Without
    /// fibers nothing changes.
    pub fn select_next_fiber(&mut self)
        requires
            old(self).wf(),
        ensures
            final(self).wf(),
            final(self).moved_to(
                *old(self),
                index_after(old(self).fibers.selected, old(self).fibers.items@.len()),
            ),
    {
        if self.fibers.items.len() > 0 {
            self.fibers.next();
            self.on_fiber_change()
        }
    }

    /// Shows the dump of the fiber under the cursor, or of the first
    /// fiber when nothing is selected, from its top.
    pub fn on_fiber_change(&mut self)
        requires
            match old(self).fibers.selected {
                Some(i) => i < old(self).fiber_dump_all@.len(),
                None => 0 < old(self).fiber_dump_all@.len(),
            },
        ensures
            final(self).fibers == old(self).fibers,
            final(self).shows(
                *old(self),
                match old(self).fibers.selected {
                    Some(i) => i as int,
                    None => 0,
                },
            ),
    {
        let n = match self.fibers.selected {
            Some(i) => i,
            None => 0,
        };
        self.selected_fiber_dump = ZMXTab::prepare_dump(self.fiber_dump_all[n].clone());
        self.scroll = 0;
    }

    /// `self` is `before` with the fibers of `dump` on show: the list holds
    /// the lines of their tree, with ids, each line has the dump of its
    /// fiber, and the cursor is on the first line, whose dump is shown. The
    /// scroll position and the history stay.
    pub open spec fn replaced_by(self, before: ZMXTab, dump: Seq<Fiber>) -> bool {
        let rows = tree_rows(node_views(dump), true);
        &&& self.wf()
        &&& self.fibers.selected == Some(0usize)
        &&& self.fiber_counts == before.fiber_counts
        &&& self.scroll == before.scroll
        &&& self.fibers.items@.len() == rows.len()
        &&& forall|k: int| 0 <= k < rows.len() ==> (#[trigger] rows[k]).index < dump.len()
        &&& forall|k: int|
            0 <= k < rows.len() ==> (#[trigger] self.fibers.items@[k])@ == row_text(
                node_views(dump),
                rows[k],
                column_width(rows),
            )
        &&& forall|k: int|
            0 <= k < rows.len() ==> (#[trigger] self.fiber_dump_all@[k])
                == dump[rows[k].index as int].dump
        &&& rows.len() > 0 ==> {
            &&& self.selected_fiber_dump.0 == self.fiber_dump_all@[0]
            &&& self.selected_fiber_dump.1 == scroll_bound(self.fiber_dump_all@[0]@)
        }
        &&& rows.len() == 0 ==> {
            &&& self.selected_fiber_dump.0@ == Seq::<char>::empty()
            &&& self.selected_fiber_dump.1 == 0
        }
    }

    /// Replaces the fibers on show by those of `dump`.
    pub fn replace_fiber_dump(&mut self, dump: Vec<Fiber>)
        ensures
            final(self).replaced_by(*old(self), dump@),
    {
        let ghost fibers = dump@;
        let ghost rows = tree_rows(node_views(fibers), true);
        let list = tree_list_widget(dump, true);
        let mut labels: Vec<String> = Vec::new();
        let mut dumps: Vec<String> = Vec::new();
        let mut k: usize = 0;
        while k < list.len()
            invariant
                k <= list@.len(),
                labels@.len() == k,
                dumps@.len() == k,
                rows == tree_rows(node_views(fibers), true),
                list@.len() == rows.len(),
                forall|j: int|
                    0 <= j < list@.len() ==> (#[trigger] list@[j]).0@ == row_text(
                        node_views(fibers),
                        rows[j],
                        column_width(rows),
                    ),
                forall|j: int| 0 <= j < list@.len() ==> (#[trigger] rows[j]).index < fibers.len(),
                forall|j: int|
                    0 <= j < list@.len() ==> (#[trigger] list@[j]).1 == fibers[rows[j].index as int],
                forall|j: int| 0 <= j < k ==> (#[trigger] labels@[j])@ == list@[j].0@,
                forall|j: int|
                    0 <= j < k ==> (#[trigger] dumps@[j]) == fibers[rows[j].index as int].dump,
            decreases list@.len() - k,
        {
            assert(list@[k as int].1 == fibers[rows[k as int].index as int]);
            labels.push(list[k].0.clone());
            dumps.push(list[k].1.dump.clone());
            k = k + 1;
        }
        self.fibers.items = labels;
        self.fibers.selected = Some(0);
        if dumps.len() > 0 {
            self.selected_fiber_dump = ZMXTab::prepare_dump(dumps[0].clone());
        } else {
            self.selected_fiber_dump = ZMXTab::prepare_dump(String::new());
        }
        self.fiber_dump_all = dumps;
    }

    /// Scrolls the dump up by a line, if it is not at its top.
    pub fn scroll_up(&mut self)
        ensures
            final(self).scroll == if old(self).scroll > 0 {
                (old(self).scroll - 1) as u16
            } else {
                0u16
            },
            final(self).fibers == old(self).fibers,
            final(self).selected_fiber_dump == old(self).selected_fiber_dump,
            final(self).fiber_dump_all == old(self).fiber_dump_all,
            final(self).fiber_counts == old(self).fiber_counts,
    {
        if self.scroll > 0 {
            self.scroll -= 1;
        }
    }

    /// Scrolls the dump down by a line, no further than its bound.
    pub fn scroll_down(&mut self)
        ensures
            final(self).scroll == if old(self).scroll < old(self).selected_fiber_dump.1 {
                (old(self).scroll + 1) as u16
            } else {
                old(self).scroll
            },
            final(self).fibers == old(self).fibers,
            final(self).selected_fiber_dump == old(self).selected_fiber_dump,
            final(self).fiber_dump_all == old(self).fiber_dump_all,
            final(self).fiber_counts == old(self).fiber_counts,
    {
        if self.scroll < self.selected_fiber_dump.1 {
            self.scroll += 1;
        }
    }

    /// `self` is `before` with the counts of `dump` recorded.
    pub open spec fn counted(self, before: ZMXTab, dump: Seq<Fiber>) -> bool {
        &&& self.fiber_counts@ == recorded(before.fiber_counts@, fiber_count(dump), 100)
        &&& self.fibers == before.fibers
        &&& self.selected_fiber_dump == before.selected_fiber_dump
        &&& self.fiber_dump_all == before.fiber_dump_all
        &&& self.scroll == before.scroll
    }

    /// Counts the fibers of `dump` by status and records the counts.
    pub fn append_fiber_dump_for_counts(&mut self, dump: Vec<Fiber>)
        ensures
            final(self).counted(*old(self), dump@),
    {
        let mut count = FiberCount { done: 0, suspended: 0, running: 0, finishing: 0 };
        let mut i: usize = 0;
        while i < dump.len()
            invariant
                i <= dump@.len(),
                count == fiber_count(dump@.take(i as int)),
            decreases dump@.len() - i,
        {
            proof {
                assert(dump@.take(i + 1).drop_last() =~= dump@.take(i as int));
            }
            match dump[i].status {
                FiberStatus::Done => {
                    if count.done < i32::MAX {
                        count.done += 1
                    }
                },
                FiberStatus::Finishing => {
                    if count.finishing < i32::MAX {
                        count.finishing += 1
                    }
                },
                FiberStatus::Running => {
                    if count.running < i32::MAX {
                        count.running += 1
                    }
                },
                FiberStatus::Suspended => {
                    if count.suspended < i32::MAX {
                        count.suspended += 1
                    }
                },
            }
            i = i + 1;
        }
        assert(dump@.take(i as int) =~= dump@);
        self.append_fiber_count(count);
    }

    /// The text of a dump with its scroll bound, the number of its lines.
    pub fn prepare_dump(s: String) -> (prepared: (String, u16))
        ensures
            prepared.0 == s,
            prepared.1 == scroll_bound(s@),
    {
        let chars = chars_of(s.as_str());
        let mut breaks: usize = 0;
        let mut i: usize = 0;
        while i < chars.len()
            invariant
                i <= chars@.len(),
                breaks <= i,
                breaks == newline_count(chars@.take(i as int)),
            decreases chars@.len() - i,
        {
            assert(chars@.take(i + 1).drop_last() =~= chars@.take(i as int));
            if chars[i] == '\n' {
                breaks = breaks + 1;
            }
            i = i + 1;
        }
        assert(chars@.take(i as int) =~= chars@);
        let lines = if chars.len() > 0 && chars[chars.len() - 1] != '\n' {
            proof {
                assert(chars@.drop_last().len() == chars@.len() - 1);
                lemma_newlines_bounded(chars@.drop_last());
            }
            breaks + 1
        } else {
            breaks
        };
        (s, (lines % 0x10000) as u16)
    }
}

/// A text has no more line breaks than characters.
pub proof fn lemma_newlines_bounded(s: Seq<char>)
    ensures
        newline_count(s) <= s.len(),
    decreases s.len(),
{
    if s.len() > 0 {
        lemma_newlines_bounded(s.drop_last());
    }
}


/// The causes by which the log of undelivered messages is split.
#[derive(Debug, PartialEq, Eq, Hash, Clone, Copy, Structural)]
pub enum DeadLettersTabKind {
    DeadLetters,
    Unhandled,
    Dropped,
}

/// The log line of a dead letter.
pub open spec fn dead_letter_line(m: Timestamped<DeadLettersMessage>) -> DeadLettersUIMessage {
    DeadLettersUIMessage {
        message: m.value.message,
        sender: m.value.sender,
        recipient: m.value.recipient,
        timestamp: m.timestamp,
        reason: None,
    }
}

/// The log line of an unhandled message.
pub open spec fn unhandled_line(m: Timestamped<UnhandledMessage>) -> DeadLettersUIMessage {
    DeadLettersUIMessage {
        message: m.value.message,
        sender: m.value.sender,
        recipient: m.value.recipient,
        timestamp: m.timestamp,
        reason: None,
    }
}

/// The log line of a dropped message.
pub open spec fn dropped_line(m: Timestamped<DroppedMessage>) -> DeadLettersUIMessage {
    DeadLettersUIMessage {
        message: m.value.message,
        sender: m.value.sender,
        recipient: m.value.recipient,
        timestamp: m.timestamp,
        reason: Some(m.value.reason),
    }
}

/// The log lines of the messages of `kind` in `snapshot`, in order.
pub open spec fn log_lines(snapshot: DeadLettersSnapshot, kind: DeadLettersTabKind) -> Seq<
    DeadLettersUIMessage,
> {
    match kind {
        DeadLettersTabKind::DeadLetters => snapshot.dead_letters@.map_values(
            |m: Timestamped<DeadLettersMessage>| dead_letter_line(m),
        ),
        DeadLettersTabKind::Unhandled => snapshot.unhandled@.map_values(
            |m: Timestamped<UnhandledMessage>| unhandled_line(m),
        ),
        DeadLettersTabKind::Dropped => snapshot.dropped@.map_values(
            |m: Timestamped<DroppedMessage>| dropped_line(m),
        ),
    }
}

/// The tab of the actor system: the actor tree, the history of the actor
/// count, the system status, and the undelivered messages with their
/// history and log.
#[derive(Debug, PartialEq, Eq, Clone)]
pub struct AkkaTab {
    pub actors: StatefulList<String>,
    pub actor_counts: VecDeque<u64>,
    pub system_status: ActorSystemStatus,
    pub dead_letters_messages: DeadLettersSnapshot,
    pub dead_letters_windows: VecDeque<DeadLettersWindow>,
    pub dead_letters_tabs: TabsState<DeadLettersTabKind>,
    pub dead_letters_log: StatefulList<DeadLettersUIMessage>,
    pub has_cluster: bool,
    pub cluster_members: Vec<ClusterMember>,
}

impl AkkaTab {
    pub const MAX_ACTOR_COUNT_MEASURES: usize = 25;

    pub const MAX_DEAD_LETTERS_WINDOW_MEASURES: usize = 100;

    /// The log has its three tabs, one of them in front.
    pub open spec fn wf(self) -> bool {
        self.dead_letters_tabs.wf()
    }

    /// The kind of the log tab in front.
    pub open spec fn log_kind(self) -> DeadLettersTabKind {
        self.dead_letters_tabs.tabs@[self.dead_letters_tabs.index as int].kind
    }

    /// Tells whether the log has a tab in front.
    pub fn well_formed(&self) -> (ok: bool)
        ensures
            ok == self.wf(),
    {
        self.dead_letters_tabs.well_formed()
    }

    /// The tab shows no actor and no message, has no history, and its log
    /// has the three tabs of the causes with the dead letters in front.
    pub open spec fn is_fresh(self) -> bool {
        &&& self.actors.items@.len() == 0
        &&& self.actors.selected is None
        &&& self.actor_counts@ == Seq::<u64>::empty()
        &&& self.dead_letters_windows@ == Seq::<DeadLettersWindow>::empty()
        &&& self.dead_letters_messages.dead_letters@.len() == 0
        &&& self.dead_letters_messages.unhandled@.len() == 0
        &&& self.dead_letters_messages.dropped@.len() == 0
        &&& self.dead_letters_tabs.index == 0
        &&& self.dead_letters_tabs.tabs@.len() == 3
        &&& self.dead_letters_tabs.tabs@[0].kind == DeadLettersTabKind::DeadLetters
        &&& self.dead_letters_tabs.tabs@[1].kind == DeadLettersTabKind::Unhandled
        &&& self.dead_letters_tabs.tabs@[2].kind == DeadLettersTabKind::Dropped
        &&& self.dead_letters_tabs.tabs@[0].title@ == "Dead Letters"@
        &&& self.dead_letters_tabs.tabs@[1].title@ == "Unhandled"@
        &&& self.dead_letters_tabs.tabs@[2].title@ == "Dropped"@
        &&& self.dead_letters_log.items@.len() == 0
        &&& self.dead_letters_log.selected is None
        &&& self.system_status == (ActorSystemStatus { actor_count: 0, uptime: 0, start_time: 0 })
        &&& self.cluster_members@.len() == 0
    }

    /// An empty tab with the log of dead letters in front.
    pub fn new() -> (tab: AkkaTab)
        ensures
            tab.wf(),
            tab.is_fresh(),
            !tab.has_cluster,
    {
        let mut tabs: Vec<Tab<DeadLettersTabKind>> = Vec::new();
        tabs.push(Tab { kind: DeadLettersTabKind::DeadLetters, title: "Dead Letters".to_owned() });
        tabs.push(Tab { kind: DeadLettersTabKind::Unhandled, title: "Unhandled".to_owned() });
        tabs.push(Tab { kind: DeadLettersTabKind::Dropped, title: "Dropped".to_owned() });
        AkkaTab {
            actors: StatefulList::with_items(Vec::new()),
            actor_counts: VecDeque::new(),
            dead_letters_messages: DeadLettersSnapshot {
                dead_letters: Vec::new(),
                unhandled: Vec::new(),
                dropped: Vec::new(),
            },
            dead_letters_windows: VecDeque::new(),
            dead_letters_tabs: TabsState { tabs, index: 0 },
            dead_letters_log: StatefulList::with_items(Vec::new()),
            system_status: ActorSystemStatus { actor_count: 0, uptime: 0, start_time: 0 },
            has_cluster: false,
            cluster_members: Vec::new(),
        }
    }

    /// `self` is `before` but for the actor list.
    pub open spec fn same_but_actors(self, before: AkkaTab) -> bool {
        &&& self.actor_counts == before.actor_counts
        &&& self.system_status == before.system_status
        &&& self.dead_letters_messages == before.dead_letters_messages
        &&& self.dead_letters_windows == before.dead_letters_windows
        &&& self.dead_letters_tabs == before.dead_letters_tabs
        &&& self.dead_letters_log == before.dead_letters_log
        &&& self.has_cluster == before.has_cluster
        &&& self.cluster_members == before.cluster_members
    }

    /// `self` is `before` but for the log of undelivered messages and the
    /// tab of it that is in front.
    pub open spec fn same_but_log(self, before: AkkaTab) -> bool {
        &&& self.actors == before.actors
        &&& self.actor_counts == before.actor_counts
        &&& self.system_status == before.system_status
        &&& self.dead_letters_messages == before.dead_letters_messages
        &&& self.dead_letters_windows == before.dead_letters_windows
        &&& self.dead_letters_tabs.tabs == before.dead_letters_tabs.tabs
        &&& self.has_cluster == before.has_cluster
        &&& self.cluster_members == before.cluster_members
    }

    /// The actor list holds the lines of the tree of `actors`, without
    /// ids.
    pub open spec fn lists(self, actors: Seq<ActorTreeNode>) -> bool {
        let rows = tree_rows(node_views(actors), false);
        &&& self.actors.items@.len() == rows.len()
        &&& forall|k: int|
            0 <= k < rows.len() ==> (#[trigger] self.actors.items@[k])@ == row_text(
                node_views(actors),
                rows[k],
                column_width(rows),
            )
    }

    /// Replaces the actor list by the lines of the tree of `actors`,
    /// without ids. The cursor stays where it is.
    pub fn update_actor_tree(&mut self, actors: Vec<ActorTreeNode>)
        ensures
            final(self).same_but_actors(*old(self)),
            final(self).actors.selected == old(self).actors.selected,
            final(self).lists(actors@),
    {
        let ghost nodes = node_views(actors@);
        let ghost rows = tree_rows(nodes, false);
        let list = tree_list_widget(actors, false);
        let mut lines: Vec<String> = Vec::new();
        let mut k: usize = 0;
        while k < list.len()
            invariant
                k <= list@.len(),
                lines@.len() == k,
                list@.len() == rows.len(),
                forall|j: int|
                    0 <= j < list@.len() ==> (#[trigger] list@[j]).0@ == row_text(
                        nodes,
                        rows[j],
                        column_width(rows),
                    ),
                forall|j: int| 0 <= j < k ==> (#[trigger] lines@[j])@ == list@[j].0@,
            decreases list@.len() - k,
        {
            lines.push(list[k].0.clone());
            k = k + 1;
        }
        self.actors.items = lines;
    }

    /// Moves the cursor of the actor list to the previous actor.
    pub fn select_prev_actor(&mut self)
        ensures
            final(self).same_but_actors(*old(self)),
            final(self).actors.items == old(self).actors.items,
            final(self).actors.selected == Some(
                index_before(old(self).actors.selected, old(self).actors.items@.len()),
            ),
    {
        self.actors.previous();
    }

    /// Moves the cursor of the actor list to the next actor.
    pub fn select_next_actor(&mut self)
        ensures
            final(self).same_but_actors(*old(self)),
            final(self).actors.items == old(self).actors.items,
            final(self).actors.selected == Some(
                index_after(old(self).actors.selected, old(self).actors.items@.len()),
            ),
    {
        self.actors.next();
    }

    /// Takes a new system status and records its actor count.
    pub fn append_system_status(&mut self, c: ActorSystemStatus)
        ensures
            final(self).actor_counts@ == recorded(old(self).actor_counts@, c.actor_count, 25),
            final(self).system_status == c,
            final(self).actors == old(self).actors,
            final(self).dead_letters_messages == old(self).dead_letters_messages,
            final(self).dead_letters_windows == old(self).dead_letters_windows,
            final(self).dead_letters_tabs == old(self).dead_letters_tabs,
            final(self).dead_letters_log == old(self).dead_letters_log,
            final(self).has_cluster == old(self).has_cluster,
            final(self).cluster_members == old(self).cluster_members,
    {
        record(&mut self.actor_counts, c.actor_count, Self::MAX_ACTOR_COUNT_MEASURES);
        self.system_status = c;
    }

    /// Takes the undelivered messages of a poll: the snapshot replaces the
    /// one before, the window is recorded.
    pub fn append_dead_letters(&mut self, snapshot: DeadLettersSnapshot, window: DeadLettersWindow)
        ensures
            final(self).dead_letters_windows@ == recorded(
                old(self).dead_letters_windows@,
                window,
                100,
            ),
            final(self).dead_letters_messages == snapshot,
            final(self).actors == old(self).actors,
            final(self).actor_counts == old(self).actor_counts,
            final(self).system_status == old(self).system_status,
            final(self).dead_letters_tabs == old(self).dead_letters_tabs,
            final(self).dead_letters_log == old(self).dead_letters_log,
            final(self).has_cluster == old(self).has_cluster,
            final(self).cluster_members == old(self).cluster_members,
    {
        record(&mut self.dead_letters_windows, window, Self::MAX_DEAD_LETTERS_WINDOW_MEASURES);
        self.dead_letters_messages = snapshot;
    }

    /// Fills the log with the messages of the kind whose tab is in front,
    /// and takes the cursor off it.
    pub fn reload_dead_letters_log(&mut self)
        requires
            old(self).wf(),
        ensures
            final(self).same_but_log(*old(self)),
            final(self).dead_letters_tabs == old(self).dead_letters_tabs,
            final(self).dead_letters_log.selected is None,
            final(self).dead_letters_log.items@ == log_lines(
                old(self).dead_letters_messages,
                old(self).log_kind(),
            ),
    {
        let mut lines: Vec<DeadLettersUIMessage> = Vec::new();
        let kind = self.dead_letters_tabs.current().kind;
        let ghost all = log_lines(self.dead_letters_messages, kind);
        match kind {
            DeadLettersTabKind::DeadLetters => {
                let mut i: usize = 0;
                while i < self.dead_letters_messages.dead_letters.len()
                    invariant
                        i <= self.dead_letters_messages.dead_letters@.len(),
                        all == log_lines(self.dead_letters_messages, DeadLettersTabKind::DeadLetters),
                        lines@ == all.take(i as int),
                    decreases self.dead_letters_messages.dead_letters@.len() - i,
                {
                    let m = &self.dead_letters_messages.dead_letters[i];
                    lines.push(m.value.to_ui(m.timestamp));
                    i = i + 1;
                    assert(lines@ =~= all.take(i as int));
                }
                assert(all.take(i as int) =~= all);
            },
            DeadLettersTabKind::Unhandled => {
                let mut i: usize = 0;
                while i < self.dead_letters_messages.unhandled.len()
                    invariant
                        i <= self.dead_letters_messages.unhandled@.len(),
                        all == log_lines(self.dead_letters_messages, DeadLettersTabKind::Unhandled),
                        lines@ == all.take(i as int),
                    decreases self.dead_letters_messages.unhandled@.len() - i,
                {
                    let m = &self.dead_letters_messages.unhandled[i];
                    lines.push(m.value.to_ui(m.timestamp));
                    i = i + 1;
                    assert(lines@ =~= all.take(i as int));
                }
                assert(all.take(i as int) =~= all);
            },
            DeadLettersTabKind::Dropped => {
                let mut i: usize = 0;
                while i < self.dead_letters_messages.dropped.len()
                    invariant
                        i <= self.dead_letters_messages.dropped@.len(),
                        all == log_lines(self.dead_letters_messages, DeadLettersTabKind::Dropped),
                        lines@ == all.take(i as int),
                    decreases self.dead_letters_messages.dropped@.len() - i,
                {
                    let m = &self.dead_letters_messages.dropped[i];
                    lines.push(m.value.to_ui(m.timestamp));
                    i = i + 1;
                    assert(lines@ =~= all.take(i as int));
                }
                assert(all.take(i as int) =~= all);
            },
        }
        self.dead_letters_log = StatefulList::with_items(lines);
    }
}

/// The requests that a self-check has to see answered.
pub open spec fn all_checks_spec() -> Seq<FetcherRequest> {
    seq![
        FetcherRequest::FiberDump,
        FetcherRequest::RegularFiberDump,
        FetcherRequest::HikariMetrics,
        FetcherRequest::SlickMetrics,
        FetcherRequest::SlickConfig,
        FetcherRequest::ActorTree,
        FetcherRequest::ActorSystemStatus,
        FetcherRequest::DeadLetters,
    ]
}

/// The requests that a self-check has to see answered.
pub fn all_checks() -> (checks: Vec<FetcherRequest>)
    ensures
        checks@ == all_checks_spec(),
{
    let mut checks: Vec<FetcherRequest> = Vec::new();
    checks.push(FetcherRequest::FiberDump);
    checks.push(FetcherRequest::RegularFiberDump);
    checks.push(FetcherRequest::HikariMetrics);
    checks.push(FetcherRequest::SlickMetrics);
    checks.push(FetcherRequest::SlickConfig);
    checks.push(FetcherRequest::ActorTree);
    checks.push(FetcherRequest::ActorSystemStatus);
    checks.push(FetcherRequest::DeadLetters);
    assert(checks@ =~= all_checks_spec());
    checks
}

/// Progress of a self-check: the requests that were answered so far.
#[derive(Debug, PartialEq, Eq, Clone)]
pub struct CheckStatus {
    pub is_check_mode: bool,
    pub checks_passed: Vec<FetcherRequest>,
    pub ticks_passed: u8,
}

impl CheckStatus {
    /// Every one of the `required` requests was answered.
    pub fn is_success(&self, required: &Vec<FetcherRequest>) -> (success: bool)
        ensures
            success == forall|i: int|
                0 <= i < required@.len() ==> self.checks_passed@.contains(#[trigger] required@[i]),
    {
        let mut i: usize = 0;
        while i < required.len()
            invariant
                i <= required@.len(),
                forall|j: int| 0 <= j < i ==> self.checks_passed@.contains(#[trigger] required@[j]),
            decreases required@.len() - i,
        {
            let mut found = false;
            let mut k: usize = 0;
            while k < self.checks_passed.len() && !found
                invariant
                    k <= self.checks_passed@.len(),
                    i < required@.len(),
                    found ==> self.checks_passed@.contains(required@[i as int]),
                    !found ==> forall|j: int|
                        0 <= j < k ==> self.checks_passed@[j] != required@[i as int],
                decreases self.checks_passed@.len() - k + if found { 0int } else { 1int },
            {
                if self.checks_passed[k] == required[i] {
                    found = true;
                } else {
                    k = k + 1;
                }
            }
            if !found {
                assert(!self.checks_passed@.contains(required@[i as int]));
                return false;
            }
            i = i + 1;
        }
        true
    }
}


/// The dashboard: the tabs of the configured backends, and whether and
/// why it is about to quit.
#[derive(Debug, PartialEq, Eq)]
pub struct App<'a> {
    pub title: &'a str,
    pub should_quit: bool,
    pub exit_reason: Option<String>,
    pub tabs: TabsState<AppTabKind>,
    pub zmx: Option<ZMXTab>,
    pub slick: Option<SlickTab>,
    pub akka: Option<AkkaTab>,
    pub check_status: CheckStatus,
}

/// The tabs of a dashboard, in their fixed order, for the backends that
/// were configured.
pub open spec fn tab_kinds(zmx: bool, slick: bool, akka: bool) -> Seq<AppTabKind> {
    (if zmx {
        seq![AppTabKind::ZMX]
    } else {
        Seq::empty()
    }) + (if slick {
        seq![AppTabKind::Slick]
    } else {
        Seq::empty()
    }) + (if akka {
        seq![AppTabKind::Akka]
    } else {
        Seq::empty()
    })
}

/// The title on the handle of a tab.
pub open spec fn tab_title(kind: AppTabKind) -> Seq<char> {
    match kind {
        AppTabKind::ZMX => "ZIO"@,
        AppTabKind::Slick => "Slick"@,
        AppTabKind::Akka => "Akka"@,
    }
}

impl<'a> App<'a> {
    /// The backend of tabs of `kind` was configured.
    pub open spec fn enabled(self, kind: AppTabKind) -> bool {
        match kind {
            AppTabKind::ZMX => self.zmx is Some,
            AppTabKind::Slick => self.slick is Some,
            AppTabKind::Akka => self.akka is Some,
        }
    }

    /// There is a tab in front, every tab has its state, and the states
    /// are in order.
    pub open spec fn wf(self) -> bool {
        &&& self.tabs.wf()
        &&& forall|i: int|
            0 <= i < self.tabs.tabs@.len() ==> self.enabled((#[trigger] self.tabs.tabs@[i]).kind)
        &&& (self.zmx matches Some(tab) ==> tab.wf())
        &&& (self.akka matches Some(tab) ==> tab.wf())
    }

    /// The kind of the tab in front.
    pub open spec fn current_kind(self) -> AppTabKind {
        self.tabs.tabs@[self.tabs.index as int].kind
    }

    /// Tells whether the dashboard is in order: a tab is in front, every
    /// tab has its state, and the states are in order.
    pub fn well_formed(&self) -> (ok: bool)
        ensures
            ok == self.wf(),
    {
        if !self.tabs.well_formed() {
            return false;
        }
        let mut i: usize = 0;
        while i < self.tabs.tabs.len()
            invariant
                i <= self.tabs.tabs@.len(),
                forall|j: int| 0 <= j < i ==> self.enabled((#[trigger] self.tabs.tabs@[j]).kind),
            decreases self.tabs.tabs@.len() - i,
        {
            let enabled = match self.tabs.tabs[i].kind {
                AppTabKind::ZMX => self.zmx.is_some(),
                AppTabKind::Slick => self.slick.is_some(),
                AppTabKind::Akka => self.akka.is_some(),
            };
            if !enabled {
                assert(!self.enabled(self.tabs.tabs@[i as int].kind));
                return false;
            }
            i = i + 1;
        }
        let zmx_ok = match &self.zmx {
            Some(tab) => tab.well_formed(),
            None => true,
        };
        let akka_ok = match &self.akka {
            Some(tab) => tab.well_formed(),
            None => true,
        };
        zmx_ok && akka_ok
    }

    /// The dashboard is `before` but for the states of its tabs.
    pub open spec fn same_frame(self, before: Self) -> bool {
        &&& self.title == before.title
        &&& self.should_quit == before.should_quit
        &&& self.exit_reason == before.exit_reason
        &&& self.tabs == before.tabs
        &&& self.check_status == before.check_status
    }

    /// The dashboard is `before` but quits, for `reason`.
    pub open spec fn quits(self, before: Self, reason: Option<String>) -> bool {
        &&& self.should_quit
        &&& self.exit_reason == reason
        &&& self.title == before.title
        &&& self.tabs == before.tabs
        &&& self.check_status == before.check_status
        &&& self.zmx == before.zmx
        &&& self.slick == before.slick
        &&& self.akka == before.akka
    }

    /// The dashboard of the backends that were configured: one tab for
    /// each, the first in front, running.
    pub fn new(
        title: &'a str,
        zio_zmx_addr: Option<String>,
        jmx: Option<JMXConnectionSettings>,
        akka: Option<AkkaSettings>,
        check_mode: bool,
    ) -> (app: App<'a>)
        ensures
            app.title == title,
            !app.should_quit,
            app.exit_reason is None,
            app.tabs.index == 0,
            app.tabs.tabs@.len() == tab_kinds(zio_zmx_addr is Some, jmx is Some, akka is Some).len(),
            forall|i: int|
                0 <= i < app.tabs.tabs@.len() ==> {
                    let kinds = tab_kinds(zio_zmx_addr is Some, jmx is Some, akka is Some);
                    &&& (#[trigger] app.tabs.tabs@[i]).kind == kinds[i]
                    &&& app.tabs.tabs@[i].title@ == tab_title(kinds[i])
                },
            app.zmx is Some <==> zio_zmx_addr is Some,
            app.slick is Some <==> jmx is Some,
            app.akka is Some <==> akka is Some,
            app.zmx matches Some(tab) ==> tab.is_fresh(),
            app.slick matches Some(tab) ==> tab.is_fresh(),
            app.akka matches Some(tab) ==> tab.is_fresh() && tab.has_cluster == (
            akka->0.cluster_status_address is Some),
            app.check_status.is_check_mode == check_mode,
            app.check_status.checks_passed@.len() == 0,
            app.check_status.ticks_passed == 0,
            (zio_zmx_addr is Some || jmx is Some || akka is Some) <==> app.wf(),
    {
        let mut tabs: Vec<Tab<AppTabKind>> = Vec::new();
        let zmx = match zio_zmx_addr {
            Some(_) => {
                tabs.push(Tab { kind: AppTabKind::ZMX, title: "ZIO".to_owned() });
                Some(ZMXTab::new())
            },
            None => None,
        };
        let slick = match jmx {
            Some(_) => {
                tabs.push(Tab { kind: AppTabKind::Slick, title: "Slick".to_owned() });
                Some(SlickTab::new())
            },
            None => None,
        };
        let akka_tab = match akka {
            Some(settings) => {
                tabs.push(Tab { kind: AppTabKind::Akka, title: "Akka".to_owned() });
                let mut tab = AkkaTab::new();
                tab.has_cluster = settings.cluster_status_address.is_some();
                Some(tab)
            },
            None => None,
        };
        App {
            title,
            should_quit: false,
            exit_reason: None,
            tabs: TabsState::new(tabs),
            zmx,
            slick,
            akka: akka_tab,
            check_status: CheckStatus {
                is_check_mode: check_mode,
                checks_passed: Vec::new(),
                ticks_passed: 0,
            },
        }
    }

    /// Quits, for the reason given.
    pub fn quit(&mut self, error: Option<String>)
        ensures
            final(self).quits(*old(self), error),
    {
        self.should_quit = true;
        self.exit_reason = error;
    }

    /// Brings the next tab to the front.
    pub fn on_right(&mut self)
        requires
            old(self).wf(),
        ensures
            final(self).wf(),
            final(self).tabs.tabs == old(self).tabs.tabs,
            final(self).tabs.index == (old(self).tabs.index + 1) % (old(self).tabs.tabs@.len() as int),
            final(self).title == old(self).title,
            final(self).should_quit == old(self).should_quit,
            final(self).exit_reason == old(self).exit_reason,
            final(self).check_status == old(self).check_status,
            final(self).zmx == old(self).zmx,
            final(self).slick == old(self).slick,
            final(self).akka == old(self).akka,
    {
        self.tabs.next();
    }

    /// Brings the previous tab to the front.
    pub fn on_left(&mut self)
        requires
            old(self).wf(),
        ensures
            final(self).wf(),
            final(self).tabs.tabs == old(self).tabs.tabs,
            final(self).tabs.index == if old(self).tabs.index > 0 {
                old(self).tabs.index - 1
            } else {
                old(self).tabs.tabs@.len() - 1
            },
            final(self).title == old(self).title,
            final(self).should_quit == old(self).should_quit,
            final(self).exit_reason == old(self).exit_reason,
            final(self).check_status == old(self).check_status,
            final(self).zmx == old(self).zmx,
            final(self).slick == old(self).slick,
            final(self).akka == old(self).akka,
    {
        self.tabs.previous();
    }

    /// Moves the cursor of the tab in front up: to the previous fiber, or
    /// to the previous line of the message log. The pool tab has no
    /// cursor.
    pub fn on_up(&mut self)
        requires
            old(self).wf(),
        ensures
            final(self).wf(),
            final(self).same_frame(*old(self)),
            final(self).slick == old(self).slick,
            match old(self).current_kind() {
                AppTabKind::ZMX => {
                    &&& final(self).akka == old(self).akka
                    &&& final(self).zmx is Some
                    &&& final(self).zmx->0.moved_to(
                        old(self).zmx->0,
                        index_before(
                            old(self).zmx->0.fibers.selected,
                            old(self).zmx->0.fibers.items@.len(),
                        ),
                    )
                },
                AppTabKind::Slick => {
                    &&& final(self).zmx == old(self).zmx
                    &&& final(self).akka == old(self).akka
                },
                AppTabKind::Akka => {
                    &&& final(self).zmx == old(self).zmx
                    &&& final(self).akka is Some
                    &&& final(self).akka->0.same_but_log(old(self).akka->0)
                    &&& final(self).akka->0.dead_letters_tabs == old(self).akka->0.dead_letters_tabs
                    &&& final(self).akka->0.dead_letters_log.items == old(self).akka->0.dead_letters_log.items
                    &&& final(self).akka->0.dead_letters_log.selected == Some(
                        index_before(
                            old(self).akka->0.dead_letters_log.selected,
                            old(self).akka->0.dead_letters_log.items@.len(),
                        ),
                    )
                },
            },
    {
        match self.tabs.current().kind {
            AppTabKind::ZMX => match &mut self.zmx {
                Some(tab) => tab.select_prev_fiber(),
                None => {},
            },
            AppTabKind::Slick => {},
            AppTabKind::Akka => match &mut self.akka {
                Some(tab) => tab.dead_letters_log.previous(),
                None => {},
            },
        }
    }

    /// Moves the cursor of the tab in front down: to the next fiber, or to
    /// the next line of the message log. The pool tab has no cursor.
    pub fn on_down(&mut self)
        requires
            old(self).wf(),
        ensures
            final(self).wf(),
            final(self).same_frame(*old(self)),
            final(self).slick == old(self).slick,
            match old(self).current_kind() {
                AppTabKind::ZMX => {
                    &&& final(self).akka == old(self).akka
                    &&& final(self).zmx is Some
                    &&& final(self).zmx->0.moved_to(
                        old(self).zmx->0,
                        index_after(
                            old(self).zmx->0.fibers.selected,
                            old(self).zmx->0.fibers.items@.len(),
                        ),
                    )
                },
                AppTabKind::Slick => {
                    &&& final(self).zmx == old(self).zmx
                    &&& final(self).akka == old(self).akka
                },
                AppTabKind::Akka => {
                    &&& final(self).zmx == old(self).zmx
                    &&& final(self).akka is Some
                    &&& final(self).akka->0.same_but_log(old(self).akka->0)
                    &&& final(self).akka->0.dead_letters_tabs == old(self).akka->0.dead_letters_tabs
                    &&& final(self).akka->0.dead_letters_log.items == old(self).akka->0.dead_letters_log.items
                    &&& final(self).akka->0.dead_letters_log.selected == Some(
                        index_after(
                            old(self).akka->0.dead_letters_log.selected,
                            old(self).akka->0.dead_letters_log.items@.len(),
                        ),
                    )
                },
            },
    {
        match self.tabs.current().kind {
            AppTabKind::ZMX => match &mut self.zmx {
                Some(tab) => tab.select_next_fiber(),
                None => {},
            },
            AppTabKind::Slick => {},
            AppTabKind::Akka => match &mut self.akka {
                Some(tab) => tab.dead_letters_log.next(),
                None => {},
            },
        }
    }

    /// `self` is `before` with the log of undelivered messages turned to
    /// the tab at `index` and filled anew.
    pub open spec fn log_turned(self, before: Self, index: int) -> bool {
        &&& self.same_frame(before)
        &&& self.zmx == before.zmx
        &&& self.slick == before.slick
        &&& match before.current_kind() {
            AppTabKind::Akka => {
                &&& self.akka is Some
                &&& self.akka->0.same_but_log(before.akka->0)
                &&& self.akka->0.dead_letters_tabs.index == index
                &&& self.akka->0.dead_letters_log.selected is None
                &&& self.akka->0.dead_letters_log.items@ == log_lines(
                    before.akka->0.dead_letters_messages,
                    before.akka->0.dead_letters_tabs.tabs@[index].kind,
                )
            },
            _ => self.akka == before.akka,
        }
    }

    /// Turns the log of undelivered messages to its next tab. Other tabs
    /// than the actor system's have no such log.
    pub fn on_right_alt(&mut self)
        requires
            old(self).wf(),
        ensures
            final(self).wf(),
            final(self).log_turned(
                *old(self),
                (old(self).akka->0.dead_letters_tabs.index + 1) % (old(self).akka->0.dead_letters_tabs.tabs@.len() as int),
            ),
    {
        match self.tabs.current().kind {
            AppTabKind::ZMX => {},
            AppTabKind::Slick => {},
            AppTabKind::Akka => match &mut self.akka {
                Some(akka) => {
                    akka.dead_letters_tabs.next();
                    akka.reload_dead_letters_log();
                },
                None => {},
            },
        }
    }

    /// Turns the log of undelivered messages to its previous tab. Other
    /// tabs than the actor system's have no such log.
    pub fn on_left_alt(&mut self)
        requires
            old(self).wf(),
        ensures
            final(self).wf(),
            final(self).log_turned(
                *old(self),
                if old(self).akka->0.dead_letters_tabs.index > 0 {
                    old(self).akka->0.dead_letters_tabs.index - 1
                } else {
                    old(self).akka->0.dead_letters_tabs.tabs@.len() - 1
                },
            ),
    {
        match self.tabs.current().kind {
            AppTabKind::ZMX => {},
            AppTabKind::Slick => {},
            AppTabKind::Akka => match &mut self.akka {
                Some(akka) => {
                    akka.dead_letters_tabs.previous();
                    akka.reload_dead_letters_log();
                },
                None => {},
            },
        }
    }

    /// Takes a typed character: `q` quits, `a` and `d` turn the log of
    /// undelivered messages, every other character is ignored.
    pub fn on_key(&mut self, c: char)
        requires
            old(self).wf(),
        ensures
            final(self).wf(),
            c == 'q' ==> final(self).quits(*old(self), None),
            c == 'a' ==> final(self).log_turned(
                *old(self),
                if old(self).akka->0.dead_letters_tabs.index > 0 {
                    old(self).akka->0.dead_letters_tabs.index - 1
                } else {
                    old(self).akka->0.dead_letters_tabs.tabs@.len() - 1
                },
            ),
            c == 'd' ==> final(self).log_turned(
                *old(self),
                (old(self).akka->0.dead_letters_tabs.index + 1) % (old(self).akka->0.dead_letters_tabs.tabs@.len() as int),
            ),
            c != 'q' && c != 'a' && c != 'd' ==> *final(self) == *old(self),
    {
        if c == 'q' {
            self.quit(None)
        } else if c == 'a' {
            self.on_left_alt()
        } else if c == 'd' {
            self.on_right_alt()
        }
    }

    /// Pages the tab in front up: scrolls the dump of the selected fiber,
    /// or moves the cursor of the actor list. The pool tab has nothing to
    /// page.
    pub fn on_page_up(&mut self)
        requires
            old(self).wf(),
        ensures
            final(self).wf(),
            final(self).same_frame(*old(self)),
            final(self).slick == old(self).slick,
            match old(self).current_kind() {
                AppTabKind::ZMX => {
                    &&& final(self).akka == old(self).akka
                    &&& final(self).zmx is Some
                    &&& final(self).zmx->0.scroll == if old(self).zmx->0.scroll > 0 {
                        (old(self).zmx->0.scroll - 1) as u16
                    } else {
                        0u16
                    }
                    &&& final(self).zmx->0.fibers == old(self).zmx->0.fibers
                    &&& final(self).zmx->0.selected_fiber_dump == old(self).zmx->0.selected_fiber_dump
                    &&& final(self).zmx->0.fiber_dump_all == old(self).zmx->0.fiber_dump_all
                    &&& final(self).zmx->0.fiber_counts == old(self).zmx->0.fiber_counts
                },
                AppTabKind::Slick => {
                    &&& final(self).zmx == old(self).zmx
                    &&& final(self).akka == old(self).akka
                },
                AppTabKind::Akka => {
                    &&& final(self).zmx == old(self).zmx
                    &&& final(self).akka is Some
                    &&& final(self).akka->0.same_but_actors(old(self).akka->0)
                    &&& final(self).akka->0.actors.items == old(self).akka->0.actors.items
                    &&& final(self).akka->0.actors.selected == Some(
                        index_before(
                            old(self).akka->0.actors.selected,
                            old(self).akka->0.actors.items@.len(),
                        ),
                    )
                },
            },
    {
        match self.tabs.current().kind {
            AppTabKind::ZMX => match &mut self.zmx {
                Some(tab) => tab.scroll_up(),
                None => {},
            },
            AppTabKind::Slick => {},
            AppTabKind::Akka => match &mut self.akka {
                Some(tab) => tab.select_prev_actor(),
                None => {},
            },
        }
    }

    /// Pages the tab in front down: scrolls the dump of the selected
    /// fiber, or moves the cursor of the actor list. The pool tab has
    /// nothing to page.
    pub fn on_page_down(&mut self)
        requires
            old(self).wf(),
        ensures
            final(self).wf(),
            final(self).same_frame(*old(self)),
            final(self).slick == old(self).slick,
            match old(self).current_kind() {
                AppTabKind::ZMX => {
                    &&& final(self).akka == old(self).akka
                    &&& final(self).zmx is Some
                    &&& final(self).zmx->0.scroll == if old(self).zmx->0.scroll < old(self).zmx->0.selected_fiber_dump.1 {
                        (old(self).zmx->0.scroll + 1) as u16
                    } else {
                        old(self).zmx->0.scroll
                    }
                    &&& final(self).zmx->0.fibers == old(self).zmx->0.fibers
                    &&& final(self).zmx->0.selected_fiber_dump == old(self).zmx->0.selected_fiber_dump
                    &&& final(self).zmx->0.fiber_dump_all == old(self).zmx->0.fiber_dump_all
                    &&& final(self).zmx->0.fiber_counts == old(self).zmx->0.fiber_counts
                },
                AppTabKind::Slick => {
                    &&& final(self).zmx == old(self).zmx
                    &&& final(self).akka == old(self).akka
                },
                AppTabKind::Akka => {
                    &&& final(self).zmx == old(self).zmx
                    &&& final(self).akka is Some
                    &&& final(self).akka->0.same_but_actors(old(self).akka->0)
                    &&& final(self).akka->0.actors.items == old(self).akka->0.actors.items
                    &&& final(self).akka->0.actors.selected == Some(
                        index_after(
                            old(self).akka->0.actors.selected,
                            old(self).akka->0.actors.items@.len(),
                        ),
                    )
                },
            },
    {
        match self.tabs.current().kind {
            AppTabKind::ZMX => match &mut self.zmx {
                Some(tab) => tab.scroll_down(),
                None => {},
            },
            AppTabKind::Slick => {},
            AppTabKind::Akka => match &mut self.akka {
                Some(tab) => tab.select_next_actor(),
                None => {},
            },
        }
    }

    /// The request that the enter key makes on the tab in front: a fresh
    /// fiber dump or a fresh actor tree. The pool tab takes no snapshot.
    pub fn on_enter(&self) -> (request: Option<FetcherRequest>)
        requires
            self.wf(),
        ensures
            request == match self.current_kind() {
                AppTabKind::ZMX => Some(FetcherRequest::FiberDump),
                AppTabKind::Slick => None,
                AppTabKind::Akka => Some(FetcherRequest::ActorTree),
            },
    {
        match self.tabs.current().kind {
            AppTabKind::ZMX => Some(FetcherRequest::FiberDump),
            AppTabKind::Slick => None,
            AppTabKind::Akka => Some(FetcherRequest::ActorTree),
        }
    }

    /// The requests of one tick: the steady polls of every backend that
    /// was configured. The pool gauges and the cluster status are polled
    /// only while the backend is known to have them.
    pub open spec fn tick_requests(self) -> Seq<FetcherRequest> {
        (if self.zmx is Some {
            seq![FetcherRequest::RegularFiberDump]
        } else {
            Seq::empty()
        }) + (match self.slick {
            Some(tab) => if tab.has_hikari {
                seq![FetcherRequest::SlickMetrics, FetcherRequest::HikariMetrics]
            } else {
                seq![FetcherRequest::SlickMetrics]
            },
            None => Seq::empty(),
        }) + (match self.akka {
            Some(tab) => if tab.has_cluster {
                seq![
                    FetcherRequest::ActorSystemStatus,
                    FetcherRequest::DeadLetters,
                    FetcherRequest::ClusterStatus,
                ]
            } else {
                seq![FetcherRequest::ActorSystemStatus, FetcherRequest::DeadLetters]
            },
            None => Seq::empty(),
        })
    }

    /// The requests to make on a tick.
    pub fn on_tick(&self) -> (requests: Vec<FetcherRequest>)
        ensures
            requests@ == self.tick_requests(),
    {
        let mut requests: Vec<FetcherRequest> = Vec::new();
        if self.zmx.is_some() {
            requests.push(FetcherRequest::RegularFiberDump);
        }
        match &self.slick {
            Some(tab) => {
                requests.push(FetcherRequest::SlickMetrics);
                if tab.has_hikari {
                    requests.push(FetcherRequest::HikariMetrics);
                }
            },
            None => {},
        }
        match &self.akka {
            Some(tab) => {
                requests.push(FetcherRequest::ActorSystemStatus);
                requests.push(FetcherRequest::DeadLetters);
                if tab.has_cluster {
                    requests.push(FetcherRequest::ClusterStatus);
                }
            },
            None => {},
        }
        assert(requests@ =~= self.tick_requests());
        requests
    }

    /// The requests to make once at startup: the limits and the first
    /// gauges of the pool, where a pool was configured.
    pub fn initial_requests(&self) -> (requests: Vec<FetcherRequest>)
        ensures
            requests@ == if self.slick is Some {
                seq![
                    FetcherRequest::SlickConfig,
                    FetcherRequest::HikariMetrics,
                    FetcherRequest::SlickMetrics,
                ]
            } else {
                Seq::empty()
            },
    {
        let mut requests: Vec<FetcherRequest> = Vec::new();
        if self.slick.is_some() {
            requests.push(FetcherRequest::SlickConfig);
            requests.push(FetcherRequest::HikariMetrics);
            requests.push(FetcherRequest::SlickMetrics);
        }
        requests
    }

    /// The dashboard is `before` but for the state of its fiber tab.
    pub open spec fn same_but_zmx(self, before: Self) -> bool {
        self.same_frame(before) && self.slick == before.slick && self.akka == before.akka
    }

    /// The dashboard is `before` but for the state of its pool tab.
    pub open spec fn same_but_slick(self, before: Self) -> bool {
        self.same_frame(before) && self.zmx == before.zmx && self.akka == before.akka
    }

    /// The dashboard is `before` but for the state of its actor tab.
    pub open spec fn same_but_akka(self, before: Self) -> bool {
        self.same_frame(before) && self.zmx == before.zmx && self.slick == before.slick
    }

    /// `self` is what `before` becomes on `response`.
    ///
    /// A fatal failure quits with its words as the reason, and so does the
    /// failure of any poll but two: failed pool gauges only take the pool
    /// gauges off the pool tab, and a failed cluster status only takes
    /// the cluster off the actor tab. A value goes to the tab of its
    /// backend: snapshots replace what was shown, samples are recorded in
    /// the histories. A value for a tab that does not exist is dropped.
    pub open spec fn responded(self, before: Self, response: FetcherResponse) -> bool {
        match response {
            FetcherResponse::FatalFailure(e) => self.quits(before, Some(e)),
            FetcherResponse::FiberDump(Err(e)) => self.quits(before, Some(e)),
            FetcherResponse::RegularFiberDump(Err(e)) => self.quits(before, Some(e)),
            FetcherResponse::SlickMetrics(Err(e)) => self.quits(before, Some(e)),
            FetcherResponse::SlickConfig(Err(e)) => self.quits(before, Some(e)),
            FetcherResponse::ActorTree(Err(e)) => self.quits(before, Some(e)),
            FetcherResponse::ActorSystemStatus(Err(e)) => self.quits(before, Some(e)),
            FetcherResponse::DeadLetters(Err(e)) => self.quits(before, Some(e)),
            FetcherResponse::HikariMetrics(Err(_)) => {
                &&& self.same_but_slick(before)
                &&& match before.slick {
                    Some(tab) => self.slick == Some(SlickTab { has_hikari: false, ..tab }),
                    None => self.slick is None,
                }
            },
            FetcherResponse::ClusterStatus(Err(_)) => {
                &&& self.same_but_akka(before)
                &&& match before.akka {
                    Some(tab) => self.akka == Some(AkkaTab { has_cluster: false, ..tab }),
                    None => self.akka is None,
                }
            },
            FetcherResponse::FiberDump(Ok(dump)) => {
                &&& self.same_but_zmx(before)
                &&& match before.zmx {
                    Some(tab) => self.zmx is Some && self.zmx->0.replaced_by(tab, dump@),
                    None => self.zmx is None,
                }
            },
            FetcherResponse::RegularFiberDump(Ok(dump)) => {
                &&& self.same_but_zmx(before)
                &&& match before.zmx {
                    Some(tab) => self.zmx is Some && self.zmx->0.counted(tab, dump@),
                    None => self.zmx is None,
                }
            },
            FetcherResponse::HikariMetrics(Ok(m)) => {
                &&& self.same_but_slick(before)
                &&& match before.slick {
                    Some(tab) => {
                        &&& self.slick is Some
                        &&& self.slick->0.has_hikari
                        &&& self.slick->0.hikari_metrics@ == recorded(tab.hikari_metrics@, m, 100)
                        &&& self.slick->0.slick_metrics == tab.slick_metrics
                        &&& self.slick->0.slick_config == tab.slick_config
                    },
                    None => self.slick is None,
                }
            },
            FetcherResponse::SlickMetrics(Ok(m)) => {
                &&& self.same_but_slick(before)
                &&& match before.slick {
                    Some(tab) => {
                        &&& self.slick is Some
                        &&& self.slick->0.has_hikari == tab.has_hikari
                        &&& self.slick->0.slick_metrics@ == recorded(tab.slick_metrics@, m, 25)
                        &&& self.slick->0.hikari_metrics == tab.hikari_metrics
                        &&& self.slick->0.slick_config == tab.slick_config
                    },
                    None => self.slick is None,
                }
            },
            FetcherResponse::SlickConfig(Ok(c)) => {
                &&& self.same_but_slick(before)
                &&& match before.slick {
                    Some(tab) => {
                        &&& self.slick is Some
                        &&& self.slick->0.has_hikari == tab.has_hikari
                        &&& self.slick->0.slick_metrics == tab.slick_metrics
                        &&& self.slick->0.hikari_metrics == tab.hikari_metrics
                        &&& self.slick->0.slick_config == c
                    },
                    None => self.slick is None,
                }
            },
            FetcherResponse::ActorTree(Ok(actors)) => {
                &&& self.same_but_akka(before)
                &&& match before.akka {
                    Some(tab) => {
                        &&& self.akka is Some
                        &&& self.akka->0.lists(actors@)
                        &&& self.akka->0.actors.selected == tab.actors.selected
                        &&& self.akka->0.actor_counts == tab.actor_counts
                        &&& self.akka->0.system_status == tab.system_status
                        &&& self.akka->0.dead_letters_messages == tab.dead_letters_messages
                        &&& self.akka->0.dead_letters_windows == tab.dead_letters_windows
                        &&& self.akka->0.dead_letters_tabs == tab.dead_letters_tabs
                        &&& self.akka->0.has_cluster == tab.has_cluster
                        &&& self.akka->0.cluster_members == tab.cluster_members
                        &&& self.akka->0.dead_letters_log.selected is None
                        &&& self.akka->0.dead_letters_log.items@ == log_lines(
                            tab.dead_letters_messages,
                            tab.log_kind(),
                        )
                    },
                    None => self.akka is None,
                }
            },
            FetcherResponse::ActorSystemStatus(Ok(status)) => {
                &&& self.same_but_akka(before)
                &&& match before.akka {
                    Some(tab) => self.akka == Some(
                        AkkaTab {
                            actor_counts: self.akka->0.actor_counts,
                            system_status: status,
                            ..tab
                        },
                    ) && self.akka->0.actor_counts@ == recorded(
                        tab.actor_counts@,
                        status.actor_count,
                        25,
                    ),
                    None => self.akka is None,
                }
            },
            FetcherResponse::DeadLetters(Ok(metrics)) => {
                &&& self.same_but_akka(before)
                &&& match before.akka {
                    Some(tab) => self.akka == Some(
                        AkkaTab {
                            dead_letters_windows: self.akka->0.dead_letters_windows,
                            dead_letters_messages: metrics.0,
                            ..tab
                        },
                    ) && self.akka->0.dead_letters_windows@ == recorded(
                        tab.dead_letters_windows@,
                        metrics.1,
                        100,
                    ),
                    None => self.akka is None,
                }
            },
            FetcherResponse::ClusterStatus(Ok(members)) => {
                &&& self.same_but_akka(before)
                &&& match before.akka {
                    Some(tab) => self.akka == Some(
                        AkkaTab { has_cluster: true, cluster_members: members, ..tab },
                    ),
                    None => self.akka is None,
                }
            },
        }
    }

    /// Takes a response of the fetch engine.
    pub fn on_response(&mut self, response: FetcherResponse)
        requires
            old(self).wf(),
        ensures
            final(self).wf(),
            final(self).responded(*old(self), response),
    {
        match response {
            FetcherResponse::FatalFailure(e) => self.quit(Some(e)),
            FetcherResponse::FiberDump(d) => match d {
                Err(e) => self.quit(Some(e)),
                Ok(x) => match &mut self.zmx {
                    Some(tab) => tab.replace_fiber_dump(x),
                    None => {},
                },
            },
            FetcherResponse::RegularFiberDump(d) => match d {
                Err(e) => self.quit(Some(e)),
                Ok(x) => match &mut self.zmx {
                    Some(tab) => tab.append_fiber_dump_for_counts(x),
                    None => {},
                },
            },
            FetcherResponse::HikariMetrics(d) => match &mut self.slick {
                Some(tab) => match d {
                    Err(_) => {
                        tab.has_hikari = false;
                    },
                    Ok(x) => {
                        tab.has_hikari = true;
                        tab.append_hikari_metrics(x);
                    },
                },
                None => {},
            },
            FetcherResponse::SlickMetrics(d) => match d {
                Err(e) => self.quit(Some(e)),
                Ok(x) => match &mut self.slick {
                    Some(tab) => tab.append_slick_metrics(x),
                    None => {},
                },
            },
            FetcherResponse::SlickConfig(d) => match d {
                Err(e) => self.quit(Some(e)),
                Ok(x) => match &mut self.slick {
                    Some(tab) => tab.replace_slick_config(x),
                    None => {},
                },
            },
            FetcherResponse::ActorTree(d) => match d {
                Err(e) => self.quit(Some(e)),
                Ok(x) => match &mut self.akka {
                    Some(tab) => {
                        tab.update_actor_tree(x);
                        tab.reload_dead_letters_log();
                    },
                    None => {},
                },
            },
            FetcherResponse::ActorSystemStatus(d) => match d {
                Err(e) => self.quit(Some(e)),
                Ok(x) => match &mut self.akka {
                    Some(tab) => tab.append_system_status(x),
                    None => {},
                },
            },
            FetcherResponse::DeadLetters(d) => match d {
                Err(e) => self.quit(Some(e)),
                Ok(x) => match &mut self.akka {
                    Some(tab) => tab.append_dead_letters(x.0, x.1),
                    None => {},
                },
            },
            FetcherResponse::ClusterStatus(d) => match &mut self.akka {
                Some(tab) => match d {
                    Err(_) => {
                        tab.has_cluster = false;
                    },
                    Ok(members) => {
                        tab.has_cluster = true;
                        tab.cluster_members = members;
                    },
                },
                None => {},
            },
        }
    }
}


/// The response is the failure of a poll without which a tab cannot go on,
/// or the fatal failure of the engine.
pub open spec fn is_vital_failure(response: FetcherResponse) -> bool {
    response.failure() is Some && !(response is HikariMetrics) && !(response is ClusterStatus)
}

/// A failed poll of the dead letters, like every vital failure, makes the
/// dashboard quit with the words of the failure as the reason.
pub proof fn lemma_vital_failure_quits(before: App, after: App, response: FetcherResponse)
    requires
        after.responded(before, response),
        is_vital_failure(response),
    ensures
        after.should_quit,
        after.exit_reason is Some,
        after.exit_reason->0@ == response.failure()->0,
        response matches FetcherResponse::DeadLetters(Err(e)) ==> after.exit_reason == Some(e),
{
}

/// Failed pool gauges leave the dashboard running as it was: only the
/// pool gauges are off the pool tab, and they are polled no more.
pub proof fn lemma_pool_gauges_failure_is_recovered(
    before: App,
    after: App,
    response: FetcherResponse,
)
    requires
        after.responded(before, response),
        response matches FetcherResponse::HikariMetrics(Err(_)),
    ensures
        after.should_quit == before.should_quit,
        after.exit_reason == before.exit_reason,
        after.tabs == before.tabs,
        after.zmx == before.zmx,
        after.akka == before.akka,
        after.slick matches Some(tab) ==> !tab.has_hikari,
        !after.tick_requests().contains(FetcherRequest::HikariMetrics),
{
    let requests = after.tick_requests();
    assert forall|i: int| 0 <= i < requests.len() implies requests[i]
        != FetcherRequest::HikariMetrics by {}
}

} // verus!
