//! Core of a single-page video-call control panel.
//!
//! The panel tracks three independent interaction toggles (chat-pane
//! visibility on narrow viewports, microphone on/off, camera on/off) in a
//! [`state::State`] record, advances that record deterministically through a
//! closed set of intent events ([`controller::Msg`]), derives the
//! presentation classes the renderer needs from each revision, and prepares
//! the one side-effecting action the panel offers: presenting an invite link
//! taken from the current page address ([`invite::invite_prompt`]).
//!
//! The host environment (DOM mounting, media devices, the modal prompt,
//! address resolution) stays outside: it feeds events in, reads the state
//! snapshot back, and performs the prepared invite prompt.

pub mod controller;
pub mod invite;
pub mod state;
