//! A live code-reload harness: the host side of a loop that runs a
//! dynamically loaded module and swaps it for a rebuilt one while keeping the
//! state that the module has accumulated.
//!
//! Everything here is plain logic: which artifact to load, whether the tracked
//! artifact was rebuilt, how long to sleep at the end of a tick, and the
//! controller that sequences one tick after another. Loading code, reading
//! file metadata and sleeping are done by the executable around it.

mod artifact;
mod controller;
mod pacing;
mod state;
mod watcher;

pub use artifact::{
    decimal, digit_char, lemma_no_generations_selects_canonical, lemma_run_selects_last_generation,
    probe_outcome, Artifact, ArtifactLocator,
};
pub use pacing::FrameBudget;
pub use state::{lib_new_state, lib_update_and_render, Platform, State};
pub use watcher::{changed_since, nanos_per_sec, Timestamp};
pub use controller::{
    action_of, after_run, is_run, lemma_constructor_never_asked_again, lemma_step_keeps_wf,
    lemma_swap_only_between_updates, Action, Controller, Event, Phase,
};
