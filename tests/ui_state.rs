use chrono::{TimeZone, Utc};
use stonks::{FrameRateCounter, InputState, MenuError, Rect, TimeFrame, UiState, UiTarget};

fn ts(y: i32, mo: u32, d: u32, h: u32, mi: u32, s: u32) -> i64 {
    Utc.with_ymd_and_hms(y, mo, d, h, mi, s).unwrap().timestamp()
}

fn rect(x: u16, y: u16, width: u16, height: u16) -> Rect {
    Rect { x, y, width, height }
}

#[test]
fn default_state() {
    let ui = UiState::default();
    assert_eq!(ui.time_frame, TimeFrame::OneMonth);
    assert_eq!(ui.time_frame_menu_state.selected(), Some(TimeFrame::OneMonth));
    assert_eq!(ui.time_frame_menu_state.items.len(), 10);
    assert_eq!(ui.start_date, None);
    assert_eq!(ui.end_date, None);
    assert!(!ui.debug_draw());
    assert_eq!(ui.frame_rate_counter.frame_time(), None);
    assert_eq!(ui.target_area(0, 0), None);
}

#[test]
fn one_month_before_mid_march() {
    let mut ui = UiState::default();
    ui.shift_date_range_before(ts(2024, 3, 15, 12, 0, 0));
    assert_eq!(ui.end_date, Some(ts(2024, 3, 14, 23, 59, 59)));
    assert_eq!(ui.start_date, Some(ts(2024, 2, 14, 0, 0, 0)));
}

#[test]
fn five_days_before_midnight() {
    let mut ui = UiState::default();
    ui.set_time_frame(TimeFrame::FiveDays).unwrap();
    ui.shift_date_range_before(ts(2024, 1, 1, 0, 0, 0));
    assert_eq!(ui.end_date, Some(ts(2023, 12, 31, 23, 59, 59)));
    assert_eq!(ui.start_date, Some(ts(2023, 12, 27, 0, 0, 0)));
}

#[test]
fn before_the_epoch_rounds_down_to_whole_days() {
    let mut ui = UiState::default();
    ui.set_time_frame(TimeFrame::FiveDays).unwrap();
    ui.shift_date_range_before(ts(1969, 12, 31, 18, 30, 0));
    assert_eq!(ui.end_date, Some(ts(1969, 12, 30, 23, 59, 59)));
    assert_eq!(ui.start_date, Some(ts(1969, 12, 26, 0, 0, 0)));
}

#[test]
fn after_in_the_past_is_kept() {
    let mut ui = UiState::default();
    let now = ts(2024, 6, 1, 0, 0, 0) * 1000;
    ui.shift_date_range_after_at(ts(2024, 3, 15, 12, 0, 0), now);
    assert_eq!(ui.start_date, Some(ts(2024, 3, 16, 0, 0, 0)));
    assert_eq!(ui.end_date, Some(ts(2024, 4, 14, 23, 59, 59)));
}

#[test]
fn after_reaching_past_now_is_cleared() {
    let mut ui = UiState::default();
    let now = ts(2024, 4, 14, 23, 59, 58) * 1000;
    ui.shift_date_range_after_at(ts(2024, 3, 15, 12, 0, 0), now);
    assert_eq!(ui.start_date, None);
    assert_eq!(ui.end_date, None);
}

#[test]
fn after_against_the_clock() {
    let mut ui = UiState::default();
    ui.shift_date_range_after(ts(2001, 1, 1, 0, 0, 0));
    assert_eq!(ui.start_date, Some(ts(2001, 1, 2, 0, 0, 0)));
    assert_eq!(ui.end_date, Some(ts(2001, 1, 31, 23, 59, 59)));
    let today = Utc::now().timestamp();
    ui.shift_date_range_after(today);
    assert_eq!(ui.start_date, None);
    assert_eq!(ui.end_date, None);
}

#[test]
fn set_time_frame_selects_and_clears_dates() {
    let mut ui = UiState::default();
    ui.shift_date_range_before(ts(2024, 3, 15, 12, 0, 0));
    assert_eq!(ui.set_time_frame(TimeFrame::Max), Ok(()));
    assert_eq!(ui.time_frame, TimeFrame::Max);
    assert_eq!(ui.time_frame_menu_state.selected(), Some(TimeFrame::Max));
    assert_eq!(ui.start_date, None);
    assert_eq!(ui.end_date, None);
}

#[test]
fn set_time_frame_missing_from_menu_fails() {
    let mut ui = UiState::default();
    ui.time_frame_menu_state = stonks::MenuState::new(vec![TimeFrame::OneMonth]);
    ui.shift_date_range_before(ts(2024, 3, 15, 12, 0, 0));
    assert_eq!(ui.set_time_frame(TimeFrame::OneYear), Err(MenuError::NotFound));
    assert_eq!(ui.time_frame, TimeFrame::OneYear);
    assert!(ui.start_date.is_some());
}

#[test]
fn debug_draw_setter() {
    let mut ui = UiState::default();
    ui.set_debug_draw(true);
    assert!(ui.debug_draw());
}

#[test]
fn menu_drawn_above_label_wins() {
    let mut ui = UiState::default();
    ui.set_target_area(UiTarget::TimeFrameMenu, rect(10, 2, 8, 12));
    ui.set_target_area(UiTarget::TimeFrame, rect(8, 1, 10, 3));
    assert_eq!(
        ui.target_area(12, 3),
        Some((UiTarget::TimeFrameMenu, rect(10, 2, 8, 12)))
    );
    assert_eq!(ui.target_area(8, 1), Some((UiTarget::TimeFrame, rect(8, 1, 10, 3))));
    assert_eq!(ui.target_area(30, 30), None);
}

#[test]
fn later_registration_replaces_earlier() {
    let mut ui = UiState::default();
    ui.set_target_area(UiTarget::StockName, rect(0, 0, 5, 1));
    ui.set_target_area(UiTarget::StockName, rect(20, 20, 5, 1));
    assert_eq!(ui.target_area(1, 0), None);
    assert_eq!(ui.target_area(21, 20), Some((UiTarget::StockName, rect(20, 20, 5, 1))));
}

#[test]
fn cleared_registry_hits_nothing() {
    let mut ui = UiState::default();
    ui.set_target_area(UiTarget::StockSymbol, rect(0, 0, 50, 50));
    ui.set_target_area(UiTarget::StockSymbolInput, rect(5, 5, 10, 3));
    ui.clear_target_areas();
    for x in [0, 6, 49] {
        for y in [0, 6, 49] {
            assert_eq!(ui.target_area(x, y), None);
        }
    }
}

#[test]
fn zindex_of_targets() {
    assert_eq!(UiTarget::StockName.zindex(), 0);
    assert_eq!(UiTarget::StockSymbolInput.zindex(), 1);
    assert_eq!(UiTarget::TimeFrameMenu.zindex(), 1);
    assert_eq!(UiTarget::TimeFrame.sort_key(), (0, 3));
}

#[test]
fn caret_follows_input_text() {
    let mut ui = UiState::default();
    let mut input = InputState::default();
    assert!(!input.active);
    assert_eq!(ui.input_cursor(&input, UiTarget::StockSymbolInput), None);
    ui.set_target_area(UiTarget::StockSymbolInput, rect(4, 7, 20, 3));
    assert_eq!(ui.input_cursor(&input, UiTarget::StockSymbolInput), Some((5, 8)));
    input.value = String::from("AAPL");
    assert_eq!(ui.input_cursor(&input, UiTarget::StockSymbolInput), Some((9, 8)));
    input.value = String::from("né");
    assert_eq!(ui.input_cursor(&input, UiTarget::StockSymbolInput), Some((7, 8)));
}

#[test]
fn menu_rows_inside_border() {
    let ui = UiState::default();
    let menu = stonks::MenuState::new(vec![TimeFrame::FiveDays, TimeFrame::OneMonth]);
    let area = rect(10, 10, 8, 6);
    assert_eq!(ui.menu_index(&menu, area, 11, 11), Some(0));
    assert_eq!(ui.menu_index(&menu, area, 12, 12), Some(1));
    assert_eq!(ui.menu_index(&menu, area, 12, 13), None);
    assert_eq!(ui.menu_index(&menu, area, 10, 11), None);
}

#[test]
fn menu_too_long_to_show_is_rejected() {
    let ui = UiState::default();
    let menu = stonks::MenuState::new(TimeFrame::all());
    assert_eq!(ui.menu_index(&menu, rect(0, 0, 10, 5), 1, 1), None);
}

#[test]
fn frame_rate_samples_once_per_interval() {
    let mut c = FrameRateCounter::new_at(1000, 0);
    for i in 0..10 {
        assert_eq!(c.incr_at(i * 90), None);
    }
    assert_eq!(c.frame_time(), None);
    assert_eq!(c.incr_at(1000), Some(90));
    assert_eq!(c.frame_time(), Some(90));
    assert_eq!(c.frames, 0);
    assert_eq!(c.incr_at(1500), None);
    assert_eq!(c.incr_at(2000), Some(500));
    assert_eq!(c.frame_time(), Some(500));
}

#[test]
fn frame_rate_against_the_clock() {
    let mut c = FrameRateCounter::new(60_000);
    assert_eq!(c.incr(), None);
    assert_eq!(c.frames, 1);
    let mut d = FrameRateCounter::new(0);
    assert!(d.incr().is_some());
    assert_eq!(d.frames, 0);
}

#[test]
fn targets_order_by_level_then_declaration() {
    assert!(UiTarget::TimeFrame < UiTarget::TimeFrameMenu);
    assert!(UiTarget::StockSymbolInput > UiTarget::TimeFrame);
    assert!(UiTarget::StockName < UiTarget::StockSymbol);
    assert!(UiTarget::StockSymbolInput < UiTarget::TimeFrameMenu);
    assert_eq!(
        UiTarget::TimeFrame.partial_cmp(&UiTarget::TimeFrame),
        Some(std::cmp::Ordering::Equal)
    );
}

#[test]
fn interior_past_the_last_column_is_empty() {
    let margin = stonks::Margin { horizontal: 1, vertical: 1 };
    assert_eq!(rect(65535, 3, 4, 4).inner(&margin), rect(0, 0, 0, 0));
    assert_eq!(rect(3, 65535, 4, 4).inner(&margin), rect(0, 0, 0, 0));
    assert_eq!(rect(3, 4, 6, 5).inner(&margin), rect(4, 5, 4, 3));
    let ui = UiState::default();
    let menu = stonks::MenuState::new(vec![TimeFrame::FiveDays]);
    assert_eq!(ui.menu_index(&menu, rect(65535, 0, 4, 4), 0, 1), None);
    assert_eq!(ui.menu_index(&menu, rect(0, 65535, 4, 4), 1, 0), None);
}

#[test]
fn registry_changes_leave_the_rest_alone() {
    let mut ui = UiState::default();
    ui.set_debug_draw(true);
    ui.stock_symbol_input_state.value = String::from("MSFT");
    ui.set_target_area(UiTarget::StockName, rect(0, 0, 5, 1));
    ui.clear_target_areas();
    assert!(ui.debug_draw());
    assert_eq!(ui.stock_symbol_input_state.value, "MSFT");
    assert_eq!(ui.time_frame_menu_state.selected(), Some(TimeFrame::OneMonth));
}
