//! An animated authentication gate and the lifecycle of an encrypted note vault.
//!
//! A gate shows a falling-glyph animation while a credential check runs, and
//! turns the outcome of that check into a timed sequence of phases. The vault
//! is an encrypted disk image that is created, attached, detached and filled
//! through requests that the embedding program carries out.

pub mod auth;
pub mod browser;
pub mod chance;
pub mod clock;
pub mod display;
pub mod encrypting;
pub mod gate;
pub mod matrix;
pub mod rain;
pub mod request;
pub mod text;
pub mod volume;
