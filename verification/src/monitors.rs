//! The monitor registry: the connected displays in a stable order, with
//! point-to-monitor and index-to-monitor queries.
//!
//! The order does not depend on the order in which the system enumerates the
//! displays: the display at the origin comes first, the others follow by
//! position. A saved monitor index therefore means the same display on every
//! run.

use vstd::prelude::*;

use crate::types::IVec2;
use crate::types::UVec2;

verus! {

/// One display as the windowing system reports it.
#[derive(Clone, Copy, Debug, PartialEq, Eq, Structural)]
pub struct Monitor {
    /// Scale factor in thousandths.
    pub scale_factor: u32,
    /// Physical position of the top-left corner.
    pub physical_position: IVec2,
    pub physical_width: u32,
    pub physical_height: u32,
}

impl Monitor {
    pub open spec fn spec_physical_size(&self) -> UVec2 {
        UVec2 { x: self.physical_width, y: self.physical_height }
    }

    /// Physical size in pixels.
    pub fn physical_size(&self) -> (r: UVec2)
        ensures
            r == self.spec_physical_size(),
    {
        UVec2 { x: self.physical_width, y: self.physical_height }
    }
}

/// Information about a single monitor.
#[derive(Clone, Copy, Debug, PartialEq, Eq, Structural)]
pub struct MonitorInfo {
    /// Index in the sorted monitor list.
    pub index: usize,
    /// Scale factor in thousandths (`1000` or `2000` on most systems).
    pub scale: u32,
    /// Physical position of top-left corner.
    pub position: IVec2,
    /// Physical size in pixels.
    pub size: UVec2,
}

/// The monitor a window is on, kept beside the window.
#[derive(Clone, Copy, Debug, PartialEq, Eq, Structural)]
pub struct CurrentMonitor(pub MonitorInfo);

impl std::ops::Deref for CurrentMonitor {
    type Target = MonitorInfo;

    fn deref(&self) -> (r: &MonitorInfo)
        ensures
            *r == self.0,
    {
        &self.0
    }
}

/// How far `at` lies outside the half-open range `low..high`, counted so that
/// `high` itself is one step outside.
pub open spec fn axis_distance(at: int, low: int, high: int) -> int {
    if at < low {
        low - at
    } else if at >= high {
        at - high + 1
    } else {
        0
    }
}

impl MonitorInfo {
    /// The first column to the right of the monitor.
    pub open spec fn right(&self) -> int {
        self.position.x + self.size.x
    }

    /// The first row below the monitor.
    pub open spec fn bottom(&self) -> int {
        self.position.y + self.size.y
    }

    /// Whether the pixel `(x, y)` lies on the monitor.
    pub open spec fn contains(&self, x: int, y: int) -> bool {
        &&& self.position.x <= x < self.right()
        &&& self.position.y <= y < self.bottom()
    }

    /// The squared distance from `(x, y)` to the monitor's bounding box; zero
    /// exactly for the pixels on the monitor.
    pub open spec fn distance_squared(&self, x: int, y: int) -> int {
        let dx = axis_distance(x, self.position.x as int, self.right());
        let dy = axis_distance(y, self.position.y as int, self.bottom());
        dx * dx + dy * dy
    }

    /// Whether some pixel of the monitor lies in the rectangle from
    /// `(left, top)` up to, but without, `(right, bottom)`.
    pub open spec fn overlaps(&self, left: int, top: int, right: int, bottom: int) -> bool {
        &&& vstd::math::max(self.position.x as int, left) < vstd::math::min(self.right(), right)
        &&& vstd::math::max(self.position.y as int, top) < vstd::math::min(self.bottom(), bottom)
    }

    /// The display this entry describes.
    pub open spec fn display(&self) -> Monitor {
        Monitor {
            scale_factor: self.scale,
            physical_position: self.position,
            physical_width: self.size.x,
            physical_height: self.size.y,
        }
    }

    fn holds(&self, x: i64, y: i64) -> (r: bool)
        ensures
            r == self.contains(x as int, y as int),
    {
        let left = self.position.x as i64;
        let top = self.position.y as i64;
        x >= left && x < left + self.size.x as i64 && y >= top && y < top + self.size.y as i64
    }

    fn squared_distance_to(&self, x: i64, y: i64) -> (r: u128)
        requires
            -0x2_0000_0000 <= x <= 0x2_0000_0000,
            -0x2_0000_0000 <= y <= 0x2_0000_0000,
        ensures
            r == self.distance_squared(x as int, y as int),
    {
        let left = self.position.x as i64;
        let top = self.position.y as i64;
        let right = left + self.size.x as i64;
        let bottom = top + self.size.y as i64;
        let dx: u64 = if x < left {
            (left - x) as u64
        } else if x >= right {
            (x - right + 1) as u64
        } else {
            0
        };
        let dy: u64 = if y < top {
            (top - y) as u64
        } else if y >= bottom {
            (y - bottom + 1) as u64
        } else {
            0
        };
        assert(dx * dx <= 0x4_0000_0000 * 0x4_0000_0000) by (nonlinear_arith)
            requires
                0 <= dx <= 0x4_0000_0000,
        ;
        assert(dy * dy <= 0x4_0000_0000 * 0x4_0000_0000) by (nonlinear_arith)
            requires
                0 <= dy <= 0x4_0000_0000,
        ;
        (dx as u128) * (dx as u128) + (dy as u128) * (dy as u128)
    }
}

/// Whether the monitor at index `i` of `list` is the first of those nearest to
/// `(x, y)`.
pub open spec fn is_first_nearest(list: Seq<MonitorInfo>, x: int, y: int, i: int) -> bool {
    &&& 0 <= i < list.len()
    &&& forall|j: int|
        0 <= j < list.len() ==> list[i].distance_squared(x, y) <= (#[trigger] list[j]).distance_squared(
            x,
            y,
        )
    &&& forall|j: int|
        0 <= j < i ==> list[i].distance_squared(x, y) < (#[trigger] list[j]).distance_squared(x, y)
}

/// The index of the first of the monitors nearest to `(x, y)`.
pub open spec fn nearest_index(list: Seq<MonitorInfo>, x: int, y: int) -> int {
    choose|i: int| is_first_nearest(list, x, y, i)
}

/// Only one monitor is the first of the nearest.
pub proof fn lemma_first_nearest_unique(list: Seq<MonitorInfo>, x: int, y: int, i: int)
    requires
        is_first_nearest(list, x, y, i),
    ensures
        nearest_index(list, x, y) == i,
{
    let j = nearest_index(list, x, y);
    assert(is_first_nearest(list, x, y, j));
    if i < j {
        assert(list[j].distance_squared(x, y) < list[i].distance_squared(x, y));
        assert(list[i].distance_squared(x, y) <= list[j].distance_squared(x, y));
    } else if j < i {
        assert(list[i].distance_squared(x, y) < list[j].distance_squared(x, y));
        assert(list[j].distance_squared(x, y) <= list[i].distance_squared(x, y));
    }
}

/// Whether the monitor at index `i` of `list` is the first that holds `(x, y)`.
pub open spec fn is_first_containing(list: Seq<MonitorInfo>, x: int, y: int, i: int) -> bool {
    &&& 0 <= i < list.len()
    &&& list[i].contains(x, y)
    &&& forall|j: int| 0 <= j < i ==> !(#[trigger] list[j]).contains(x, y)
}

/// Whether no monitor of `list` holds `(x, y)`.
pub open spec fn none_contains(list: Seq<MonitorInfo>, x: int, y: int) -> bool {
    forall|j: int| 0 <= j < list.len() ==> !(#[trigger] list[j]).contains(x, y)
}

/// The key by which monitors are ordered: whether the monitor is away from the
/// origin, then its position.
pub open spec fn sort_key(position: IVec2) -> (bool, i32, i32) {
    (!(position.x == 0 && position.y == 0), position.x, position.y)
}

/// The order of sort keys: `false` before `true`, then by the numbers in turn.
pub open spec fn key_le(a: (bool, i32, i32), b: (bool, i32, i32)) -> bool {
    if a.0 != b.0 {
        !a.0
    } else if a.1 != b.1 {
        a.1 < b.1
    } else {
        a.2 <= b.2
    }
}

/// Whether `list` runs in the order of the sort keys.
pub open spec fn is_ordered(list: Seq<MonitorInfo>) -> bool {
    forall|i: int, j: int|
        0 <= i < j < list.len() ==> key_le(
            sort_key((#[trigger] list[i]).position),
            sort_key((#[trigger] list[j]).position),
        )
}

/// Whether every entry of `list` carries its own place in the list as its index.
pub open spec fn is_indexed(list: Seq<MonitorInfo>) -> bool {
    forall|i: int| 0 <= i < list.len() ==> (#[trigger] list[i]).index == i
}

/// Sorted monitor list, rebuilt whenever monitors change.
///
/// Monitors are sorted with primary (at 0,0) first, then by position.
pub struct Monitors {
    list: Vec<MonitorInfo>,
}

impl View for Monitors {
    type V = Seq<MonitorInfo>;

    /// The monitors in their order. Every registry that exists is indexed
    /// and ordered; a value that is not, which nothing can build, counts as
    /// empty, so that what is viewed is indexed and ordered whatever the
    /// value.
    closed spec fn view(&self) -> Seq<MonitorInfo> {
        if is_indexed(self.list@) && is_ordered(self.list@) {
            self.list@
        } else {
            Seq::empty()
        }
    }
}

impl Monitors {
    /// What holds of every registry: the entries are in sorted order and each
    /// carries its place as its index.
    #[verifier::type_invariant]
    pub closed spec fn wf(&self) -> bool {
        is_indexed(self.list@) && is_ordered(self.list@)
    }

    /// Every registry is indexed and ordered.
    pub proof fn lemma_indexed_and_ordered(&self)
        ensures
            is_indexed(self@),
            is_ordered(self@),
    {
    }

    /// The number of monitors.
    pub fn len(&self) -> (r: usize)
        ensures
            r == self@.len(),
    {
        proof {
            use_type_invariant(self);
        }
        self.list.len()
    }

    /// Find monitor containing position (x, y).
    pub fn at(&self, x: i32, y: i32) -> (r: Option<&MonitorInfo>)
        ensures
            match r {
                Some(m) => is_first_containing(self@, x as int, y as int, m.index as int) && *m
                    == self@[m.index as int],
                None => none_contains(self@, x as int, y as int),
            },
    {
        self.at_point(x as i64, y as i64)
    }

    pub(crate) fn at_point(&self, x: i64, y: i64) -> (r: Option<&MonitorInfo>)
        ensures
            match r {
                Some(m) => is_first_containing(self@, x as int, y as int, m.index as int) && *m
                    == self@[m.index as int],
                None => none_contains(self@, x as int, y as int),
            },
    {
        proof {
            use_type_invariant(self);
        }
        let mut i: usize = 0;
        while i < self.list.len()
            invariant
                i <= self.list@.len(),
                is_indexed(self.list@),
                self@ == self.list@,
                forall|j: int| 0 <= j < i ==> !(#[trigger] self.list@[j]).contains(x as int, y as int),
            decreases self.list@.len() - i,
        {
            if self.list[i].holds(x, y) {
                return Some(&self.list[i]);
            }
            i += 1;
        }
        None
    }

    /// Get monitor by index in sorted list.
    pub fn by_index(&self, index: usize) -> (r: Option<&MonitorInfo>)
        ensures
            index < self@.len() ==> r == Some(&self@[index as int]) && self@[index as int].index
                == index,
            index >= self@.len() ==> r is None,
    {
        proof {
            use_type_invariant(self);
        }
        if index < self.list.len() {
            Some(&self.list[index])
        } else {
            None
        }
    }

    /// Get the first monitor (index 0). Used as fallback when no specific monitor is known.
    pub fn first(&self) -> (r: &MonitorInfo)
        requires
            self@.len() > 0,
        ensures
            *r == self@[0],
            r.index == 0,
    {
        proof {
            use_type_invariant(self);
        }
        &self.list[0]
    }

    /// Find the monitor at position, or the closest one if outside all bounds.
    ///
    /// Unlike [`at`](Self::at), this always returns a monitor: the first that
    /// holds the position, and where none does, the first of those whose
    /// bounding box is nearest to it.
    pub fn closest_to(&self, x: i32, y: i32) -> (r: &MonitorInfo)
        requires
            self@.len() > 0,
        ensures
            is_first_nearest(self@, x as int, y as int, r.index as int),
            r.index == nearest_index(self@, x as int, y as int),
            *r == self@[r.index as int],
            !none_contains(self@, x as int, y as int) ==> is_first_containing(
                self@,
                x as int,
                y as int,
                r.index as int,
            ),
    {
        let nearest = self.closest_to_point(x as i64, y as i64);
        proof {
            if !none_contains(self@, x as int, y as int) {
                let k = choose|k: int|
                    0 <= k < self@.len() && (#[trigger] self@[k]).contains(x as int, y as int);
                lemma_nearest_is_containing(self@, x as int, y as int, nearest.index as int, k);
            }
        }
        nearest
    }

    pub(crate) fn closest_to_point(&self, x: i64, y: i64) -> (r: &MonitorInfo)
        requires
            self@.len() > 0,
            -0x2_0000_0000 <= x <= 0x2_0000_0000,
            -0x2_0000_0000 <= y <= 0x2_0000_0000,
        ensures
            is_first_nearest(self@, x as int, y as int, r.index as int),
            r.index == nearest_index(self@, x as int, y as int),
            *r == self@[r.index as int],
    {
        proof {
            use_type_invariant(self);
        }
        let mut best: usize = 0;
        let mut best_distance: u128 = self.list[0].squared_distance_to(x, y);
        let mut i: usize = 1;
        while i < self.list.len()
            invariant
                1 <= i <= self.list@.len(),
                best < i,
                is_indexed(self.list@),
                self@ == self.list@,
                -0x2_0000_0000 <= x <= 0x2_0000_0000,
                -0x2_0000_0000 <= y <= 0x2_0000_0000,
                best_distance == self.list@[best as int].distance_squared(x as int, y as int),
                forall|j: int|
                    0 <= j < i ==> best_distance <= (#[trigger] self.list@[j]).distance_squared(
                        x as int,
                        y as int,
                    ),
                forall|j: int|
                    0 <= j < best ==> best_distance < (#[trigger] self.list@[j]).distance_squared(
                        x as int,
                        y as int,
                    ),
            decreases self.list@.len() - i,
        {
            let distance = self.list[i].squared_distance_to(x, y);
            if distance < best_distance {
                best = i;
                best_distance = distance;
            }
            i += 1;
        }
        proof {
            lemma_first_nearest_unique(self@, x as int, y as int, best as int);
        }
        &self.list[best]
    }
}

/// The predicate that picks the displays at `position`.
pub open spec fn at_position(position: IVec2) -> spec_fn(Monitor) -> bool {
    |m: Monitor| m.physical_position == position
}

/// The displays of `displays` at `position`, in the order in which they stand there.
pub open spec fn displays_at(displays: Seq<Monitor>, position: IVec2) -> Seq<Monitor> {
    displays.filter(at_position(position))
}

/// The displays that the entries of `list` describe, in the order of `list`.
pub open spec fn displays_of(list: Seq<MonitorInfo>) -> Seq<Monitor> {
    list.map_values(|m: MonitorInfo| m.display())
}

/// Whether `displays` runs in the order of the sort keys.
pub open spec fn displays_ordered(displays: Seq<Monitor>) -> bool {
    forall|i: int, j: int|
        0 <= i < j < displays.len() ==> key_le(
            sort_key((#[trigger] displays[i]).physical_position),
            sort_key((#[trigger] displays[j]).physical_position),
        )
}

/// Whether `list` is the registry of `displays`: the same displays, in the
/// order of the sort keys, each with its place as its index. Displays with
/// the same key are those at the same position; they keep the order in which
/// they were enumerated. Only one list is the registry of given displays.
pub open spec fn is_registry_of(list: Seq<MonitorInfo>, displays: Seq<Monitor>) -> bool {
    &&& list.len() == displays.len()
    &&& is_indexed(list)
    &&& is_ordered(list)
    &&& forall|position: IVec2| #[trigger]
        displays_at(displays_of(list), position) == displays_at(displays, position)
}

/// Get sort key for monitor (primary at 0,0 first, then by position).
pub fn monitor_sort_key(mon: &Monitor) -> (r: (bool, i32, i32))
    ensures
        r == sort_key(mon.physical_position),
{
    let pos = mon.physical_position;
    let is_primary = pos.x == 0 && pos.y == 0;
    (!is_primary, pos.x, pos.y)
}

fn key_at_most(a: (bool, i32, i32), b: (bool, i32, i32)) -> (r: bool)
    ensures
        r == key_le(a, b),
{
    if a.0 != b.0 {
        !a.0
    } else if a.1 != b.1 {
        a.1 < b.1
    } else {
        a.2 <= b.2
    }
}

proof fn lemma_displays_at_push(displays: Seq<Monitor>, last: Monitor, position: IVec2)
    ensures
        displays_at(displays.push(last), position) == if last.physical_position == position {
            displays_at(displays, position).push(last)
        } else {
            displays_at(displays, position)
        },
{
    reveal(Seq::filter);
    assert(displays.push(last).drop_last() =~= displays);
}

proof fn lemma_displays_at_none(displays: Seq<Monitor>, position: IVec2)
    requires
        forall|k: int| 0 <= k < displays.len() ==> (#[trigger] displays[k]).physical_position != position,
    ensures
        displays_at(displays, position) == Seq::<Monitor>::empty(),
    decreases displays.len(),
{
    reveal(Seq::filter);
    if displays.len() > 0 {
        lemma_displays_at_none(displays.drop_last(), position);
    }
}

/// Putting a display in before displays at other positions only is, for the
/// displays at any one position, the same as putting it at the end.
proof fn lemma_displays_at_insert(displays: Seq<Monitor>, p: int, new: Monitor, position: IVec2)
    requires
        0 <= p <= displays.len(),
        forall|k: int|
            p <= k < displays.len() ==> (#[trigger] displays[k]).physical_position
                != new.physical_position,
    ensures
        displays_at(displays.insert(p, new), position) == displays_at(displays.push(new), position),
{
    let head = displays.subrange(0, p);
    let tail = displays.subrange(p, displays.len() as int);
    let pick = at_position(position);
    assert(displays =~= head + tail);
    Seq::filter_distributes_over_add(head.push(new), tail, pick);
    Seq::filter_distributes_over_add(head, tail, pick);
    lemma_displays_at_push(head, new, position);
    lemma_displays_at_push(displays, new, position);
    if new.physical_position == position {
        lemma_displays_at_none(tail, position);
        assert(head.filter(pick).push(new) + Seq::<Monitor>::empty() =~= head.filter(pick).push(new));
        assert(head.filter(pick) + Seq::<Monitor>::empty() =~= head.filter(pick));
    }
}

/// The place at which a display with sort key `key` goes into `sorted`: behind
/// every display whose key is no greater.
fn insertion_point(sorted: &Vec<Monitor>, key: (bool, i32, i32)) -> (p: usize)
    ensures
        p <= sorted@.len(),
        forall|k: int|
            0 <= k < p ==> key_le(sort_key((#[trigger] sorted@[k]).physical_position), key),
        p < sorted@.len() ==> !key_le(sort_key(sorted@[p as int].physical_position), key),
{
    let mut p: usize = 0;
    while p < sorted.len()
        invariant
            p <= sorted@.len(),
            forall|k: int|
                0 <= k < p ==> key_le(sort_key((#[trigger] sorted@[k]).physical_position), key),
        decreases sorted@.len() - p,
    {
        if !key_at_most(monitor_sort_key(&sorted[p]), key) {
            return p;
        }
        p += 1;
    }
    p
}

/// Build the monitor list from the displays in the order of their enumeration.
pub fn build_monitors(displays: &Vec<Monitor>) -> (r: Monitors)
    ensures
        is_registry_of(r@, displays@),
{
    let mut sorted: Vec<Monitor> = Vec::new();
    let mut i: usize = 0;
    proof {
        reveal(Seq::filter);
        assert(displays@.take(0) =~= Seq::<Monitor>::empty());
    }
    while i < displays.len()
        invariant
            i <= displays@.len(),
            sorted@.len() == i,
            displays_ordered(sorted@),
            forall|position: IVec2| #[trigger]
                displays_at(sorted@, position) == displays_at(displays@.take(i as int), position),
        decreases displays@.len() - i,
    {
        let display = displays[i];
        let p = insertion_point(&sorted, monitor_sort_key(&display));
        let ghost before = sorted@;
        sorted.insert(p, display);
        proof {
            before.insert_ensures(p as int, display);
            assert(displays@.take(i + 1) =~= displays@.take(i as int).push(display));
            assert forall|position: IVec2| #[trigger]
                displays_at(sorted@, position) == displays_at(
                    displays@.take(i + 1),
                    position,
                ) by {
                lemma_displays_at_insert(before, p as int, display, position);
                lemma_displays_at_push(before, display, position);
                lemma_displays_at_push(displays@.take(i as int), display, position);
            }
            assert forall|a: int, b: int| 0 <= a < b < sorted@.len() implies key_le(
                sort_key((#[trigger] sorted@[a]).physical_position),
                sort_key((#[trigger] sorted@[b]).physical_position),
            ) by {
                if a > p {
                    assert(sorted@[a] == before[a - 1]);
                }
                if b > p {
                    assert(sorted@[b] == before[b - 1]);
                }
            }
        }
        i += 1;
    }
    let mut list: Vec<MonitorInfo> = Vec::new();
    let mut k: usize = 0;
    while k < sorted.len()
        invariant
            k <= sorted@.len(),
            list@.len() == k,
            forall|j: int|
                0 <= j < k ==> (#[trigger] list@[j]).index == j && list@[j].display() == sorted@[j],
        decreases sorted@.len() - k,
    {
        let display = sorted[k];
        list.push(
            MonitorInfo {
                index: k,
                scale: display.scale_factor,
                position: display.physical_position,
                size: display.physical_size(),
            },
        );
        k += 1;
    }
    proof {
        assert(displays_of(list@) =~= sorted@);
        assert(displays@.take(displays@.len() as int) =~= displays@);
        assert forall|a: int, b: int| 0 <= a < b < list@.len() implies key_le(
            sort_key((#[trigger] list@[a]).position),
            sort_key((#[trigger] list@[b]).position),
        ) by {
            assert(list@[a].display() == sorted@[a]);
            assert(list@[b].display() == sorted@[b]);
        }
    }
    Monitors { list }
}

/// Where exactly one display stands at the origin, that display is the first
/// entry of the registry and has index 0, in whatever order the displays were
/// enumerated.
pub proof fn lemma_primary_sorts_first(
    list: Seq<MonitorInfo>,
    displays: Seq<Monitor>,
    primary: int,
)
    requires
        is_registry_of(list, displays),
        0 <= primary < displays.len(),
        displays[primary].physical_position == (IVec2 { x: 0, y: 0 }),
        forall|j: int|
            0 <= j < displays.len() && j != primary ==> (#[trigger] displays[j]).physical_position
                != (IVec2 { x: 0, y: 0 }),
    ensures
        list.len() > 0,
        list[0].index == 0,
        list[0].display() == displays[primary],
{
    let origin = IVec2 { x: 0, y: 0 };
    let pick = at_position(origin);
    let described = displays_of(list);
    assert(displays_at(described, origin) == displays_at(displays, origin));
    displays.lemma_filter_contains(pick, primary);
    described.lemma_filter_contains_rev(pick, displays[primary]);
    let k = choose|k: int| 0 <= k < described.len() && described[k] == displays[primary];
    assert(list[k].position == origin);
    assert(list[0].position == origin) by {
        if k > 0 {
            assert(key_le(sort_key(list[0].position), sort_key(list[k].position)));
        }
    }
    assert(described[0] == list[0].display());
    described.lemma_filter_contains(pick, 0);
    displays.lemma_filter_contains_rev(pick, described[0]);
    let j = choose|j: int| 0 <= j < displays.len() && displays[j] == described[0];
    assert(j == primary);
}

proof fn lemma_ordered_displays_unique(s: Seq<Monitor>, t: Seq<Monitor>)
    requires
        s.len() == t.len(),
        displays_ordered(s),
        displays_ordered(t),
        forall|position: IVec2| #[trigger] displays_at(s, position) == displays_at(t, position),
    ensures
        s == t,
    decreases s.len(),
{
    if s.len() == 0 {
        assert(s =~= t);
    } else {
        let n = s.len() - 1;
        let q = s.last().physical_position;
        let r = t.last().physical_position;
        assert(displays_at(s, q) == displays_at(t, q));
        assert(displays_at(s, r) == displays_at(t, r));
        s.lemma_filter_contains(at_position(q), n);
        t.lemma_filter_contains_rev(at_position(q), s.last());
        let k = choose|k: int| 0 <= k < t.len() && t[k] == s[n];
        assert(key_le(sort_key(q), sort_key(r))) by {
            if k < n {
                assert(key_le(sort_key(t[k].physical_position), sort_key(t[n].physical_position)));
            }
        }
        t.lemma_filter_contains(at_position(r), n);
        s.lemma_filter_contains_rev(at_position(r), t.last());
        let m = choose|m: int| 0 <= m < s.len() && s[m] == t[n];
        assert(key_le(sort_key(r), sort_key(q))) by {
            if m < n {
                assert(key_le(sort_key(s[m].physical_position), sort_key(s[n].physical_position)));
            }
        }
        assert(q == r);
        let s0 = s.drop_last();
        let t0 = t.drop_last();
        assert(s =~= s0.push(s.last()));
        assert(t =~= t0.push(t.last()));
        lemma_displays_at_push(s0, s.last(), q);
        lemma_displays_at_push(t0, t.last(), q);
        let sq = displays_at(s0, q);
        let tq = displays_at(t0, q);
        assert(sq.push(s.last()) == tq.push(t.last()));
        assert(s.last() == t.last()) by {
            assert(sq.push(s.last()).last() == s.last());
            assert(tq.push(t.last()).last() == t.last());
        }
        assert(sq == tq) by {
            assert(sq.push(s.last()).drop_last() =~= sq);
            assert(tq.push(t.last()).drop_last() =~= tq);
        }
        assert forall|position: IVec2| #[trigger]
            displays_at(s0, position) == displays_at(t0, position) by {
            lemma_displays_at_push(s0, s.last(), position);
            lemma_displays_at_push(t0, t.last(), position);
            assert(displays_at(s, position) == displays_at(t, position));
        }
        assert(displays_ordered(s0)) by {
            assert forall|i: int, j: int| 0 <= i < j < s0.len() implies key_le(
                sort_key((#[trigger] s0[i]).physical_position),
                sort_key((#[trigger] s0[j]).physical_position),
            ) by {
                assert(s0[i] == s[i] && s0[j] == s[j]);
            }
        }
        assert(displays_ordered(t0)) by {
            assert forall|i: int, j: int| 0 <= i < j < t0.len() implies key_le(
                sort_key((#[trigger] t0[i]).physical_position),
                sort_key((#[trigger] t0[j]).physical_position),
            ) by {
                assert(t0[i] == t[i] && t0[j] == t[j]);
            }
        }
        lemma_ordered_displays_unique(s0, t0);
        assert(s =~= t);
    }
}

/// Given displays have one registry only: the order of the keys and the
/// order of enumeration among displays at one position leave no choice.
pub proof fn lemma_registry_is_unique(
    a: Seq<MonitorInfo>,
    b: Seq<MonitorInfo>,
    displays: Seq<Monitor>,
)
    requires
        is_registry_of(a, displays),
        is_registry_of(b, displays),
    ensures
        a == b,
{
    let s = displays_of(a);
    let t = displays_of(b);
    assert(displays_ordered(s)) by {
        assert forall|i: int, j: int| 0 <= i < j < s.len() implies key_le(
            sort_key((#[trigger] s[i]).physical_position),
            sort_key((#[trigger] s[j]).physical_position),
        ) by {
            assert(s[i] == a[i].display() && s[j] == a[j].display());
        }
    }
    assert(displays_ordered(t)) by {
        assert forall|i: int, j: int| 0 <= i < j < t.len() implies key_le(
            sort_key((#[trigger] t[i]).physical_position),
            sort_key((#[trigger] t[j]).physical_position),
        ) by {
            assert(t[i] == b[i].display() && t[j] == b[j].display());
        }
    }
    assert forall|position: IVec2| #[trigger]
        displays_at(s, position) == displays_at(t, position) by {
        assert(displays_at(s, position) == displays_at(displays, position));
        assert(displays_at(t, position) == displays_at(displays, position));
    }
    lemma_ordered_displays_unique(s, t);
    assert forall|i: int| 0 <= i < a.len() implies a[i] == b[i] by {
        assert(s[i] == a[i].display());
        assert(t[i] == b[i].display());
    }
    assert(a =~= b);
}

/// A monitor that holds a point is at distance zero from it, and no other is.
pub proof fn lemma_contains_iff_distance_zero(m: MonitorInfo, x: int, y: int)
    ensures
        m.contains(x, y) <==> m.distance_squared(x, y) == 0,
        m.distance_squared(x, y) >= 0,
{
    let dx = axis_distance(x, m.position.x as int, m.right());
    let dy = axis_distance(y, m.position.y as int, m.bottom());
    assert(dx * dx >= 0 && (dx * dx == 0 <==> dx == 0)) by (nonlinear_arith);
    assert(dy * dy >= 0 && (dy * dy == 0 <==> dy == 0)) by (nonlinear_arith);
}

/// Where some monitor holds the point, the nearest monitor is the first that
/// holds it.
pub proof fn lemma_nearest_is_containing(list: Seq<MonitorInfo>, x: int, y: int, i: int, k: int)
    requires
        is_first_nearest(list, x, y, i),
        0 <= k < list.len(),
        list[k].contains(x, y),
    ensures
        is_first_containing(list, x, y, i),
{
    lemma_contains_iff_distance_zero(list[k], x, y);
    lemma_contains_iff_distance_zero(list[i], x, y);
    assert forall|j: int| 0 <= j < i implies !(#[trigger] list[j]).contains(x, y) by {
        lemma_contains_iff_distance_zero(list[j], x, y);
    }
}

} // verus!
