//! Verified logic of the Bevy RPG tutorial: the capture switch and the
//! frame-counting screenshot state machine.

pub mod tutorial_capture;
