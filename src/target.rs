use vstd::prelude::*;

verus! {

/// An addressable region of the rendered screen.
#[derive(Clone, Copy, Debug, PartialEq, Eq, Structural, Hash)]
pub enum UiTarget {
    StockName,
    StockSymbol,
    StockSymbolInput,
    TimeFrame,
    TimeFrameMenu,
}

/// Number of targets.
pub const TARGET_COUNT: u8 = 5;

/// Lexicographic order on stacking keys.
pub open spec fn key_less(a: (i8, u8), b: (i8, u8)) -> bool {
    a.0 < b.0 || (a.0 == b.0 && a.1 < b.1)
}

/// The target declared at position `p`.
pub open spec fn target_at(p: u8) -> UiTarget {
    if p == 0 {
        UiTarget::StockName
    } else if p == 1 {
        UiTarget::StockSymbol
    } else if p == 2 {
        UiTarget::StockSymbolInput
    } else if p == 3 {
        UiTarget::TimeFrame
    } else {
        UiTarget::TimeFrameMenu
    }
}

impl UiTarget {
    /// Stacking level: targets drawn above others have a higher one.
    pub open spec fn level(self) -> i8 {
        match self {
            UiTarget::StockName => 0,
            UiTarget::StockSymbol => 0,
            UiTarget::StockSymbolInput => 1,
            UiTarget::TimeFrame => 0,
            UiTarget::TimeFrameMenu => 1,
        }
    }

    /// Position in declaration order.
    pub open spec fn position(self) -> u8 {
        match self {
            UiTarget::StockName => 0,
            UiTarget::StockSymbol => 1,
            UiTarget::StockSymbolInput => 2,
            UiTarget::TimeFrame => 3,
            UiTarget::TimeFrameMenu => 4,
        }
    }

    /// The key that orders targets: stacking level, then declaration order.
    pub open spec fn key(self) -> (i8, u8) {
        (self.level(), self.position())
    }

    /// Stacking level of the target.
    pub fn zindex(self) -> (r: i8)
        ensures
            r == self.level(),
    {
        match self {
            UiTarget::StockName => 0,
            UiTarget::StockSymbol => 0,
            UiTarget::StockSymbolInput => 1,
            UiTarget::TimeFrame => 0,
            UiTarget::TimeFrameMenu => 1,
        }
    }

    /// The ordering key of the target.
    pub fn sort_key(self) -> (r: (i8, u8))
        ensures
            r == self.key(),
            target_at(r.1) == self,
            r.1 < TARGET_COUNT,
    {
        let p: u8 = match self {
            UiTarget::StockName => 0,
            UiTarget::StockSymbol => 1,
            UiTarget::StockSymbolInput => 2,
            UiTarget::TimeFrame => 3,
            UiTarget::TimeFrameMenu => 4,
        };
        (self.zindex(), p)
    }

    /// The target declared at position `p`.
    pub fn from_position(p: u8) -> (r: UiTarget)
        requires
            p < TARGET_COUNT,
        ensures
            r == target_at(p),
            r.position() == p,
    {
        if p == 0 {
            UiTarget::StockName
        } else if p == 1 {
            UiTarget::StockSymbol
        } else if p == 2 {
            UiTarget::StockSymbolInput
        } else if p == 3 {
            UiTarget::TimeFrame
        } else {
            UiTarget::TimeFrameMenu
        }
    }
}

/// Targets compare by stacking level, then by declaration order.
pub open spec fn compare_targets(a: UiTarget, b: UiTarget) -> std::cmp::Ordering {
    if key_less(a.key(), b.key()) {
        std::cmp::Ordering::Less
    } else if a == b {
        std::cmp::Ordering::Equal
    } else {
        std::cmp::Ordering::Greater
    }
}

impl PartialOrd for UiTarget {
    fn partial_cmp(&self, other: &UiTarget) -> (r: Option<std::cmp::Ordering>) {
        let a = self.sort_key();
        let b = other.sort_key();
        if a.0 < b.0 || (a.0 == b.0 && a.1 < b.1) {
            Some(std::cmp::Ordering::Less)
        } else if a.0 == b.0 && a.1 == b.1 {
            Some(std::cmp::Ordering::Equal)
        } else {
            Some(std::cmp::Ordering::Greater)
        }
    }
}

impl vstd::std_specs::cmp::PartialOrdSpecImpl for UiTarget {
    open spec fn obeys_partial_cmp_spec() -> bool {
        true
    }

    open spec fn partial_cmp_spec(&self, other: &UiTarget) -> Option<std::cmp::Ordering> {
        Some(compare_targets(*self, *other))
    }
}

/// A rectangle of character cells.
#[derive(Clone, Copy, Debug, PartialEq, Eq, Structural, Hash)]
pub struct Rect {
    pub x: u16,
    pub y: u16,
    pub width: u16,
    pub height: u16,
}

/// Space to leave on each side of a rectangle.
#[derive(Clone, Copy, Debug, PartialEq, Eq, Structural)]
pub struct Margin {
    pub horizontal: u16,
    pub vertical: u16,
}

/// `a + b`, held at the largest `u16`.
pub open spec fn add_capped(a: u16, b: u16) -> int {
    if a + b > u16::MAX {
        u16::MAX as int
    } else {
        a + b
    }
}

impl Rect {
    /// First column, last column, first row and last row, both ends included.
    pub open spec fn holds(self, x: u16, y: u16) -> bool {
        &&& self.x <= x
        &&& x <= add_capped(self.x, self.width)
        &&& self.y <= y
        &&& y <= add_capped(self.y, self.height)
    }

    /// The rectangle left inside `margin`; empty (all zero) where the margin
    /// does not fit in the rectangle, or the interior's corner in `u16`.
    pub open spec fn inner_spec(self, margin: Margin) -> Rect {
        if self.width < 2 * margin.horizontal || self.height < 2 * margin.vertical || self.x
            + margin.horizontal > u16::MAX || self.y + margin.vertical > u16::MAX {
            Rect { x: 0, y: 0, width: 0, height: 0 }
        } else {
            Rect {
                x: (self.x + margin.horizontal) as u16,
                y: (self.y + margin.vertical) as u16,
                width: (self.width - 2 * margin.horizontal) as u16,
                height: (self.height - 2 * margin.vertical) as u16,
            }
        }
    }

    pub fn left(self) -> (r: u16)
        ensures
            r == self.x,
    {
        self.x
    }

    pub fn right(self) -> (r: u16)
        ensures
            r == add_capped(self.x, self.width),
    {
        self.x.saturating_add(self.width)
    }

    pub fn top(self) -> (r: u16)
        ensures
            r == self.y,
    {
        self.y
    }

    pub fn bottom(self) -> (r: u16)
        ensures
            r == add_capped(self.y, self.height),
    {
        self.y.saturating_add(self.height)
    }

    /// Whether the cell `(x, y)` lies within the rectangle's edges.
    pub fn contains(self, x: u16, y: u16) -> (r: bool)
        ensures
            r == self.holds(x, y),
    {
        self.left() <= x && self.right() >= x && self.top() <= y && self.bottom() >= y
    }

    /// The rectangle left inside `margin`.
    pub fn inner(self, margin: &Margin) -> (r: Rect)
        ensures
            r == self.inner_spec(*margin),
    {
        let h = margin.horizontal as u32;
        let v = margin.vertical as u32;
        if (self.width as u32) < 2 * h || (self.height as u32) < 2 * v || self.x as u32 + h
            > u16::MAX as u32 || self.y as u32 + v > u16::MAX as u32 {
            Rect { x: 0, y: 0, width: 0, height: 0 }
        } else {
            Rect {
                x: (self.x as u32 + h) as u16,
                y: (self.y as u32 + v) as u16,
                width: (self.width as u32 - 2 * h) as u16,
                height: (self.height as u32 - 2 * v) as u16,
            }
        }
    }
}

#[verifier::external_type_specification]
#[verifier::external_body]
#[verifier::reject_recursive_types(K)]
#[verifier::reject_recursive_types(V)]
pub struct ExOrdMap<K, V>(im::OrdMap<K, V>);

/// Rectangles by stacking key.
pub type AreaMap = Map<(i8, u8), Rect>;

/// What an ordered map of rendered areas holds.
pub uninterp spec fn area_entries(m: im::OrdMap<(i8, u8), Rect>) -> Map<(i8, u8), Rect>;

/// Relies on im::OrdMap::new: a new map is empty.
#[verifier::external_body]
fn empty_area_map() -> (m: im::OrdMap<(i8, u8), Rect>)
    ensures
        area_entries(m) == AreaMap::empty(),
{
    im::OrdMap::new()
}

/// Relies on im::OrdMap::insert: the key maps to the value afterwards, any
/// earlier value for it is replaced and the other entries stay.
#[verifier::external_body]
fn insert_area(m: &mut im::OrdMap<(i8, u8), Rect>, key: (i8, u8), area: Rect)
    ensures
        area_entries(*final(m)) == area_entries(*old(m)).insert(key, area),
{
    m.insert(key, area);
}

/// Relies on im::OrdMap::clear: the map is empty afterwards.
#[verifier::external_body]
fn clear_area_map(m: &mut im::OrdMap<(i8, u8), Rect>)
    ensures
        area_entries(*final(m)) == AreaMap::empty(),
{
    m.clear();
}

/// Relies on im::OrdMap::get: the value stored under the key, if any.
#[verifier::external_body]
fn get_area(m: &im::OrdMap<(i8, u8), Rect>, key: (i8, u8)) -> (r: Option<Rect>)
    ensures
        r == (if area_entries(*m).contains_key(key) {
            Some(area_entries(*m)[key])
        } else {
            None
        }),
{
    m.get(&key).copied()
}

/// Relies on im::OrdMap::iter: every entry once, in ascending key order
/// (tuples compare lexicographically).
#[verifier::external_body]
fn area_list(m: &im::OrdMap<(i8, u8), Rect>) -> (r: Vec<((i8, u8), Rect)>)
    ensures
        forall|i: int, j: int| 0 <= i < j < r@.len() ==> key_less(r@[i].0, r@[j].0),
        forall|i: int|
            0 <= i < r@.len() ==> area_entries(*m).contains_key(#[trigger] r@[i].0)
                && area_entries(*m)[r@[i].0] == r@[i].1,
        forall|k: (i8, u8)|
            area_entries(*m).contains_key(k) ==> exists|i: int|
                0 <= i < r@.len() && #[trigger] r@[i].0 == k,
{
    m.iter().map(|(k, a)| (*k, *a)).collect()
}

/// The rectangle each target had when it was last drawn, ordered by stacking
/// key.
#[derive(Debug)]
pub struct TargetAreas {
    map: im::OrdMap<(i8, u8), Rect>,
}

impl TargetAreas {
    /// The registered rectangles, by stacking key.
    pub closed spec fn entries(&self) -> Map<(i8, u8), Rect> {
        area_entries(self.map)
    }

    /// Every key is the key of the target it names.
    pub open spec fn wf(&self) -> bool {
        forall|k: (i8, u8)| #[trigger]
            self.entries().contains_key(k) ==> k.1 < TARGET_COUNT && target_at(k.1).key() == k
    }

    /// Whether some registered rectangle holds `(x, y)`.
    pub open spec fn any_holds(&self, x: u16, y: u16) -> bool {
        exists|k: (i8, u8)| #[trigger]
            self.entries().contains_key(k) && self.entries()[k].holds(x, y)
    }

    /// An empty registry.
    pub fn new() -> (r: TargetAreas)
        ensures
            r.entries() == AreaMap::empty(),
            r.wf(),
    {
        TargetAreas { map: empty_area_map() }
    }

    /// Records where `target` was drawn, replacing its earlier rectangle.
    pub fn register(&mut self, target: UiTarget, area: Rect)
        requires
            old(self).wf(),
        ensures
            final(self).entries() == old(self).entries().insert(target.key(), area),
            final(self).wf(),
    {
        let key = target.sort_key();
        insert_area(&mut self.map, key, area);
        assert forall|k: (i8, u8)| #[trigger]
            self.entries().contains_key(k) implies k.1 < TARGET_COUNT && target_at(k.1).key()
            == k by {
            if k != key {
                assert(old(self).entries().contains_key(k));
            }
        }
    }

    /// Forgets every rectangle.
    pub fn clear(&mut self)
        ensures
            final(self).entries() == AreaMap::empty(),
            final(self).wf(),
    {
        clear_area_map(&mut self.map);
    }

    /// Where `target` was last drawn.
    pub fn get(&self, target: UiTarget) -> (r: Option<Rect>)
        ensures
            r == (if self.entries().contains_key(target.key()) {
                Some(self.entries()[target.key()])
            } else {
                None
            }),
    {
        get_area(&self.map, target.sort_key())
    }

    /// The topmost target whose rectangle holds `(x, y)`: the one with the
    /// greatest stacking key among those that hold it.
    pub fn hit_test(&self, x: u16, y: u16) -> (r: Option<(UiTarget, Rect)>)
        requires
            self.wf(),
        ensures
            r is None <==> !self.any_holds(x, y),
            r matches Some(hit) ==> {
                &&& self.entries().contains_key(hit.0.key())
                &&& self.entries()[hit.0.key()] == hit.1
                &&& hit.1.holds(x, y)
                &&& forall|k: (i8, u8)| #[trigger]
                    self.entries().contains_key(k) && self.entries()[k].holds(x, y) ==> !key_less(
                        hit.0.key(),
                        k,
                    )
            },
    {
        let list = area_list(&self.map);
        let mut i: usize = list.len();
        while i > 0
            invariant
                i <= list@.len(),
                self.wf(),
                forall|a: int, b: int|
                    0 <= a < b < list@.len() ==> key_less(list@[a].0, list@[b].0),
                forall|a: int|
                    0 <= a < list@.len() ==> self.entries().contains_key(#[trigger] list@[a].0)
                        && self.entries()[list@[a].0] == list@[a].1,
                forall|k: (i8, u8)|
                    self.entries().contains_key(k) ==> exists|a: int|
                        0 <= a < list@.len() && #[trigger] list@[a].0 == k,
                forall|j: int| i <= j < list@.len() ==> !(#[trigger] list@[j]).1.holds(x, y),
            decreases i,
        {
            i = i - 1;
            let (key, area) = list[i];
            if area.contains(x, y) {
                assert(self.entries().contains_key(list@[i as int].0));
                let target = UiTarget::from_position(key.1);
                proof {
                    assert forall|k: (i8, u8)| #[trigger]
                        self.entries().contains_key(k) && self.entries()[k].holds(
                            x,
                            y,
                        ) implies !key_less(key, k) by {
                        let j = choose|j: int| 0 <= j < list@.len() && #[trigger] list@[j].0 == k;
                        if j < i {
                            assert(key_less(list@[j].0, list@[i as int].0));
                        }
                    }
                }
                return Some((target, area));
            }
        }
        proof {
            if self.any_holds(x, y) {
                let k = choose|k: (i8, u8)| #[trigger]
                    self.entries().contains_key(k) && self.entries()[k].holds(x, y);
                let j = choose|j: int| 0 <= j < list@.len() && #[trigger] list@[j].0 == k;
                assert(list@[j].1 == self.entries()[k]);
            }
        }
        None
    }
}

/// Once the registry has been cleared, no point hits any target.
pub proof fn lemma_cleared_registry_hits_nothing(areas: TargetAreas, x: u16, y: u16)
    requires
        areas.entries() == AreaMap::empty(),
    ensures
        !areas.any_holds(x, y),
{
}

} // verus!
