//! The presenter's choice on each redraw tick.
//!
//! On every tick the presenter reads the slot and shows either the last image
//! or a static placeholder heading; nothing else can appear.

use vstd::prelude::*;
use crate::poll::slot_view;

verus! {

/// What the window should show on a tick.
#[derive(Debug, Clone)]
pub enum DisplayChoice {
    /// Show these image bytes.
    Picture(Vec<u8>),
    /// No image has ever arrived: show the placeholder heading.
    Placeholder,
}

/// What a choice puts on screen, as a mathematical value: the image's bytes,
/// or nothing for the placeholder.
pub open spec fn display_view(d: DisplayChoice) -> Option<Seq<u8>> {
    match d {
        DisplayChoice::Picture(p) => Some(p@),
        DisplayChoice::Placeholder => None,
    }
}

/// Decide what to show for a snapshot of the slot: the image exactly as the
/// slot holds it, or the placeholder when the slot is empty. Together with
/// `poll::lemma_slot_tracks_latest_image` this says that after any sequence
/// of polls the screen shows the most recently produced image, or the
/// placeholder if no poll ever produced one.
pub fn choose_display(snapshot: Option<Vec<u8>>) -> (d: DisplayChoice)
    ensures
        display_view(d) == slot_view(snapshot),
        snapshot is Some <==> d is Picture,
{
    match snapshot {
        Some(img) => DisplayChoice::Picture(img),
        None => DisplayChoice::Placeholder,
    }
}

/// The placeholder heading shown while no image has ever arrived.
pub fn placeholder_text() -> (s: &'static str)
    ensures
        s@ == "no task found"@,
{
    "no task found"
}

} // verus!
