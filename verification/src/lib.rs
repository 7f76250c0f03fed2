//! The decisions of a small desktop shell, kept apart from the host toolkit
//! that carries them out: what the menu bar holds, what the tray offers, and
//! what each tray event leads to.

pub mod menu;
pub mod tray;
