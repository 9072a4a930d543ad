use vstd::prelude::*;
use vstd::std_specs::cmp::PartialEqSpec;

use crate::clock::now_millis;
use crate::date_range::{
    day_number, day_of, day_start, fits_i64, lemma_window_before, window_after, window_before,
    SECONDS_PER_DAY,
};
use crate::frame_rate::FrameRateCounter;
use crate::input::InputState;
use crate::menu::{MenuError, MenuState};
use crate::target::{key_less, AreaMap, Margin, Rect, TargetAreas, UiTarget};
use crate::time_frame::{all_time_frames, TimeFrame};

verus! {

/// The frame selected when a session starts.
pub const DEFAULT_TIME_FRAME: TimeFrame = TimeFrame::OneMonth;

/// Milliseconds between two frame-time samples.
pub const FRAME_SAMPLE_INTERVAL: i64 = 1000;

/// Where the caret of a text field drawn in `area` stands after `len`
/// characters: inside the border, on the first row. None where the column
/// does not fit in `u16`.
pub open spec fn caret_at(area: Rect, len: int) -> Option<(u16, u16)> {
    let inner = area.inner_spec(Margin { horizontal: 1, vertical: 1 });
    if inner.x + len <= u16::MAX {
        Some(((inner.x + len) as u16, inner.y))
    } else {
        None
    }
}

/// The row of a menu of `len` items drawn in `area` that holds `(x, y)`.
/// None outside the border's interior, past the last item, and for a list
/// longer than the interior is high, which cannot be scrolled.
pub open spec fn menu_row(area: Rect, len: int, x: u16, y: u16) -> Option<usize> {
    let inner = area.inner_spec(Margin { horizontal: 1, vertical: 1 });
    if inner.holds(x, y) && len <= inner.height && y - inner.y < len {
        Some((y - inner.y) as usize)
    } else {
        None
    }
}

/// The interaction state of one session.
#[derive(Debug)]
pub struct UiState {
    pub debug_draw: bool,
    /// Last second of the window to query, seconds since the Unix epoch.
    pub end_date: Option<i64>,
    pub frame_rate_counter: FrameRateCounter,
    /// First second of the window to query, seconds since the Unix epoch.
    pub start_date: Option<i64>,
    pub stock_symbol_input_state: InputState,
    pub target_areas: TargetAreas,
    pub time_frame: TimeFrame,
    pub time_frame_menu_state: MenuState<TimeFrame>,
}

impl UiState {
    /// `self` and `other` agree on everything but the date window.
    pub open spec fn same_but_dates(&self, other: &UiState) -> bool {
        &&& self.debug_draw == other.debug_draw
        &&& self.frame_rate_counter == other.frame_rate_counter
        &&& self.stock_symbol_input_state == other.stock_symbol_input_state
        &&& self.target_areas == other.target_areas
        &&& self.time_frame == other.time_frame
        &&& self.time_frame_menu_state == other.time_frame_menu_state
    }

    /// The registry is well formed.
    pub open spec fn wf(&self) -> bool {
        self.target_areas.wf()
    }

    pub fn debug_draw(&self) -> (r: bool)
        ensures
            r == self.debug_draw,
    {
        self.debug_draw
    }

    pub fn set_debug_draw(&mut self, debug_draw: bool)
        ensures
            final(self).debug_draw == debug_draw,
            final(self).start_date == old(self).start_date,
            final(self).end_date == old(self).end_date,
            final(self).frame_rate_counter == old(self).frame_rate_counter,
            final(self).stock_symbol_input_state == old(self).stock_symbol_input_state,
            final(self).target_areas == old(self).target_areas,
            final(self).time_frame == old(self).time_frame,
            final(self).time_frame_menu_state == old(self).time_frame_menu_state,
    {
        self.debug_draw = debug_draw;
    }

    /// Sets the date window to the whole days of the current frame's length
    /// that end on the day before the one holding `dt`.
    pub fn shift_date_range_before(&mut self, dt: i64)
        requires
            old(self).time_frame.duration_days() is Some,
            fits_i64(window_before(dt as int, old(self).time_frame.duration_days()->Some_0 as int)),
        ensures
            final(self).same_but_dates(old(self)),
            ({
                let w = window_before(dt as int, old(self).time_frame.duration_days()->Some_0 as int);
                final(self).start_date == Some(w.0 as i64) && final(self).end_date == Some(
                    w.1 as i64,
                )
            }),
            final(self).start_date->Some_0 % SECONDS_PER_DAY == 0,
            final(self).end_date->Some_0 % SECONDS_PER_DAY == SECONDS_PER_DAY - 1,
            final(self).start_date->Some_0 <= final(self).end_date->Some_0,
            final(self).end_date->Some_0 < day_start(day_of(dt as int)),
    {
        proof {
            lemma_window_before(dt as int, self.time_frame);
        }
        let days = match self.time_frame.duration() {
            Some(d) => d as i64,
            None => 0,
        };
        let day = day_number(dt);
        let end_date = (day - 1) * SECONDS_PER_DAY + (SECONDS_PER_DAY - 1);
        let start_date = (day - days) * SECONDS_PER_DAY;
        self.start_date = Some(start_date);
        self.end_date = Some(end_date);
    }

    /// Sets the date window to the whole days of the current frame's length
    /// that start on the day after the one holding `dt`, and clears it again
    /// where its last second is later than `now` (milliseconds since the
    /// epoch).
    pub fn shift_date_range_after_at(&mut self, dt: i64, now: i64)
        requires
            old(self).time_frame.duration_days() is Some,
            fits_i64(window_after(dt as int, old(self).time_frame.duration_days()->Some_0 as int)),
        ensures
            final(self).same_but_dates(old(self)),
            ({
                let w = window_after(dt as int, old(self).time_frame.duration_days()->Some_0 as int);
                if w.1 * 1000 > now {
                    final(self).start_date is None && final(self).end_date is None
                } else {
                    final(self).start_date == Some(w.0 as i64) && final(self).end_date == Some(
                        w.1 as i64,
                    )
                }
            }),
    {
        let days = match self.time_frame.duration() {
            Some(d) => d as i64,
            None => 0,
        };
        let day = day_number(dt);
        let start_date = (day + 1) * SECONDS_PER_DAY;
        let end_date = (day + days) * SECONDS_PER_DAY + (SECONDS_PER_DAY - 1);
        self.start_date = Some(start_date);
        self.end_date = Some(end_date);
        if end_date as i128 * 1000 > now as i128 {
            self.clear_date_range();
        }
    }

    /// `shift_date_range_after_at` at the current time.
    pub fn shift_date_range_after(&mut self, dt: i64)
        requires
            old(self).time_frame.duration_days() is Some,
            fits_i64(window_after(dt as int, old(self).time_frame.duration_days()->Some_0 as int)),
        ensures
            final(self).same_but_dates(old(self)),
            ({
                let w = window_after(dt as int, old(self).time_frame.duration_days()->Some_0 as int);
                &&& final(self).start_date is None || final(self).start_date == Some(w.0 as i64)
                &&& final(self).start_date is None <==> final(self).end_date is None
                &&& final(self).end_date is None || final(self).end_date == Some(w.1 as i64)
            }),
    {
        let now = now_millis();
        self.shift_date_range_after_at(dt, now);
    }

    /// Forgets the date window.
    pub fn clear_date_range(&mut self)
        ensures
            final(self).same_but_dates(old(self)),
            final(self).start_date is None,
            final(self).end_date is None,
    {
        self.start_date = None;
        self.end_date = None;
    }

    /// Where the caret of `input_state` stands when drawn as `input_target`;
    /// none where that target was not drawn.
    pub fn input_cursor(&self, input_state: &InputState, input_target: UiTarget) -> (r: Option<
        (u16, u16),
    >)
        ensures
            r == (if self.target_areas.entries().contains_key(input_target.key()) {
                caret_at(
                    self.target_areas.entries()[input_target.key()],
                    input_state.value@.len() as int,
                )
            } else {
                None
            }),
    {
        let input_area = match self.target_areas.get(input_target) {
            Some(a) => a,
            None => {
                return None;
            },
        };
        let border_margin = Margin { horizontal: 1, vertical: 1 };
        let inner_area = input_area.inner(&border_margin);
        let len = input_state.value.as_str().unicode_len();
        if len > 65535 || inner_area.left() as usize + len > 65535 {
            return None;
        }
        let cx = (inner_area.left() as usize + len) as u16;
        let cy = inner_area.top();
        Some((cx, cy))
    }

    /// The item row of `menu_state`, drawn in `menu_area`, under `(x, y)`.
    pub fn menu_index<T: Clone + PartialEq>(
        &self,
        menu_state: &MenuState<T>,
        menu_area: Rect,
        x: u16,
        y: u16,
    ) -> (r: Option<usize>)
        ensures
            r == menu_row(menu_area, menu_state.items@.len() as int, x, y),
    {
        let border_margin = Margin { horizontal: 1, vertical: 1 };
        let inner_area = menu_area.inner(&border_margin);
        if inner_area.contains(x, y) {
            if (inner_area.height as usize) < menu_state.items.len() {
                return None;
            }
            let n: usize = (y - inner_area.top()) as usize;
            if n < menu_state.items.len() {
                return Some(n);
            }
        }
        None
    }

    /// The topmost target drawn at `(x, y)`, with its rectangle.
    pub fn target_area(&self, x: u16, y: u16) -> (r: Option<(UiTarget, Rect)>)
        requires
            self.wf(),
        ensures
            r is None <==> !self.target_areas.any_holds(x, y),
            r matches Some(hit) ==> {
                &&& self.target_areas.entries().contains_key(hit.0.key())
                &&& self.target_areas.entries()[hit.0.key()] == hit.1
                &&& hit.1.holds(x, y)
                &&& forall|k: (i8, u8)| #[trigger]
                    self.target_areas.entries().contains_key(k)
                        && self.target_areas.entries()[k].holds(x, y)
                        ==> !key_less(hit.0.key(), k)
            },
    {
        self.target_areas.hit_test(x, y)
    }

    /// Records where `target` was drawn.
    pub fn set_target_area(&mut self, target: UiTarget, area: Rect)
        requires
            old(self).wf(),
        ensures
            final(self).target_areas.entries() == old(self).target_areas.entries().insert(
                target.key(),
                area,
            ),
            final(self).wf(),
            final(self).time_frame == old(self).time_frame,
            final(self).start_date == old(self).start_date,
            final(self).end_date == old(self).end_date,
            final(self).debug_draw == old(self).debug_draw,
            final(self).frame_rate_counter == old(self).frame_rate_counter,
            final(self).stock_symbol_input_state == old(self).stock_symbol_input_state,
            final(self).time_frame_menu_state == old(self).time_frame_menu_state,
    {
        self.target_areas.register(target, area);
    }

    /// Forgets where every target was drawn.
    pub fn clear_target_areas(&mut self)
        ensures
            final(self).target_areas.entries() == AreaMap::empty(),
            final(self).wf(),
            final(self).time_frame == old(self).time_frame,
            final(self).start_date == old(self).start_date,
            final(self).end_date == old(self).end_date,
            final(self).debug_draw == old(self).debug_draw,
            final(self).frame_rate_counter == old(self).frame_rate_counter,
            final(self).stock_symbol_input_state == old(self).stock_symbol_input_state,
            final(self).time_frame_menu_state == old(self).time_frame_menu_state,
    {
        self.target_areas.clear();
    }

    /// Makes `time_frame` current, selects it in the menu and forgets the
    /// date window. Fails, with only the frame changed, where the menu does
    /// not offer it.
    pub fn set_time_frame(&mut self, time_frame: TimeFrame) -> (r: Result<(), MenuError>)
        ensures
            final(self).time_frame == time_frame,
            final(self).time_frame_menu_state.items@ == old(self).time_frame_menu_state.items@,
            final(self).time_frame_menu_state.active == old(self).time_frame_menu_state.active,
            final(self).debug_draw == old(self).debug_draw,
            final(self).frame_rate_counter == old(self).frame_rate_counter,
            final(self).stock_symbol_input_state == old(self).stock_symbol_input_state,
            final(self).target_areas == old(self).target_areas,
            r is Ok <==> old(self).time_frame_menu_state.items@.contains(time_frame),
            r is Ok ==> {
                &&& final(self).start_date is None
                &&& final(self).end_date is None
                &&& old(self).time_frame_menu_state.first_equal(
                    final(self).time_frame_menu_state.selected->Some_0 as int,
                    time_frame,
                )
            },
            r matches Err(e) ==> {
                &&& e == MenuError::NotFound
                &&& final(self).start_date == old(self).start_date
                &&& final(self).end_date == old(self).end_date
                &&& final(self).time_frame_menu_state.selected == old(
                    self,
                ).time_frame_menu_state.selected
            },
    {
        self.time_frame = time_frame;
        let r = self.time_frame_menu_state.select(time_frame);
        if r.is_err() {
            proof {
                let items = old(self).time_frame_menu_state.items@;
                assert forall|j: int| 0 <= j < items.len() implies items[j] != time_frame by {
                    assert(!items[j].eq_spec(&time_frame));
                }
            }
            return r;
        }
        self.clear_date_range();
        Ok(())
    }
}

impl Default for UiState {
    /// A session on the default frame with nothing drawn, no date window and
    /// the frame selected in its menu.
    fn default() -> (r: UiState)
        ensures
            r.time_frame == DEFAULT_TIME_FRAME,
            r.start_date is None,
            r.end_date is None,
            !r.debug_draw,
            r.time_frame_menu_state.items@ == all_time_frames(),
            r.time_frame_menu_state.selected == Some(DEFAULT_TIME_FRAME.rank() as usize),
            !r.time_frame_menu_state.active,
            r.time_frame_menu_state.wf(),
            !r.stock_symbol_input_state.active,
            r.stock_symbol_input_state.value@ == Seq::<char>::empty(),
            r.frame_rate_counter.update_interval == FRAME_SAMPLE_INTERVAL,
            r.frame_rate_counter.frames == 0,
            r.frame_rate_counter.frame_time is None,
            r.target_areas.entries() == AreaMap::empty(),
            r.wf(),
    {
        let mut menu = MenuState::new(TimeFrame::all());
        let selected = menu.select(DEFAULT_TIME_FRAME);
        assert(all_time_frames()[1].eq_spec(&DEFAULT_TIME_FRAME));
        assert(selected is Ok);
        assert(!all_time_frames()[0].eq_spec(&DEFAULT_TIME_FRAME));
        UiState {
            debug_draw: false,
            end_date: None,
            frame_rate_counter: FrameRateCounter::new(FRAME_SAMPLE_INTERVAL),
            start_date: None,
            stock_symbol_input_state: InputState::default(),
            target_areas: TargetAreas::new(),
            time_frame: DEFAULT_TIME_FRAME,
            time_frame_menu_state: menu,
        }
    }
}

} // verus!
