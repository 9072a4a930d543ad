//! Interaction state of a terminal stock-price dashboard: time frames and the
//! date windows derived from them, selectable menus, text input, a frame-rate
//! sampler and the registry that resolves pointer positions to rendered
//! regions.
mod clock;
mod text;

pub mod date_range;
pub mod frame_rate;
pub mod input;
pub mod menu;
pub mod target;
pub mod time_frame;
pub mod ui_state;

pub use frame_rate::FrameRateCounter;
pub use input::InputState;
pub use menu::{MenuError, MenuState};
pub use target::{Margin, Rect, TargetAreas, UiTarget};
pub use time_frame::{ParseTimeFrameError, TimeFrame};
pub use ui_state::UiState;
