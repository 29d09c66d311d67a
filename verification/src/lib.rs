//! The verified core of slot, a GBA-only frontend.
//!
//! - `input`: buttons, the libretro mask, the evdev decode, the host keyboard and the trace line.
//! - `cable`, `link_kind`, `link_radio`, `link_net`, `link_start`: link rules, the cable
//!   lockstep, the radio worker's state, the framing of link packets and the session start.
//! - `emu`, `frames`, `rewind`, `session`: the emulation thread's plan, the frame handoff,
//!   the rewind history and the per-frame session state.
//! - `app` (with `app::state`), `wifi_menu`, `transfer_menu`, `face`, `text`: the frontend's
//!   state machine, its menus and what they paint.
//! - `root`, `persist`, `cores`, `build_info`, `thumb`, `wallpaper`: paths, saved settings,
//!   core lookup, the build line, the polaroid PNG and the picture behind the shelf.

pub mod link_radio;
pub mod rewind;
pub mod text;
pub mod link_kind;
pub mod input;
pub mod cable;
pub mod frames;
pub mod wifi_menu;
pub mod link_start;
pub mod emu;
pub mod build_info;
pub mod root;
pub mod persist;
pub mod transfer_menu;
pub mod app;
pub mod face;
pub mod link_net;
pub mod cores;
pub mod thumb;
pub mod session;
pub mod wallpaper;
