//! One poll iteration: what it yielded, and how that updates the image slot.
//!
//! Each iteration of the background loop ends in exactly one outcome: the
//! fetch or the rendering failed, the remote reported no active task, or a new
//! image was produced. The slot keeps its previous value in the first two
//! cases and is replaced in the third; it is never cleared.

use vstd::prelude::*;
use crate::response::ParseError;
use crate::response::parse_response;
use crate::response::spec_parse_response;
use crate::slot::SharedSlot;

verus! {

/// The rendering collaborator failed to turn a graph description into an
/// image, or the description was not valid text.
#[derive(Debug, Clone, Copy, PartialEq, Eq, Structural)]
pub struct RenderError;

/// What the network step of one iteration handed back: a failure, or the
/// raw bytes of the response body.
#[derive(Debug, Clone)]
pub enum FetchResult {
    /// The request failed or timed out.
    NetworkError,
    /// The response body, undecoded.
    Body(Vec<u8>),
}

/// What one poll iteration yielded.
#[derive(Debug, Clone)]
pub enum PollOutcome {
    /// The network request, the decoding of its body, or the rendering failed.
    Failure,
    /// The remote answered and reported no active task.
    NoTask,
    /// A freshly rendered image.
    Image(Vec<u8>),
}

/// What the loop should log about an iteration.
#[derive(Debug, Clone, Copy, PartialEq, Eq, Structural)]
pub enum PollReport {
    /// The slot was overwritten with a new image.
    Updated,
    /// No active task; the slot was deliberately left alone.
    NoTask,
    /// The iteration failed; the slot was left alone. Worth a warning.
    Failed,
}

/// The slot's content seen as a mathematical value.
pub open spec fn slot_view(slot: Option<Vec<u8>>) -> Option<Seq<u8>> {
    match slot {
        Some(img) => Some(img@),
        None => None,
    }
}

/// The slot's content after one poll outcome: a new image replaces it, any
/// other outcome leaves it untouched.
pub open spec fn slot_after(prev: Option<Seq<u8>>, outcome: PollOutcome) -> Option<Seq<u8>> {
    match outcome {
        PollOutcome::Image(img) => Some(img@),
        _ => prev,
    }
}

/// The report that belongs to an outcome.
pub open spec fn report_of(outcome: PollOutcome) -> PollReport {
    match outcome {
        PollOutcome::Image(_) => PollReport::Updated,
        PollOutcome::NoTask => PollReport::NoTask,
        PollOutcome::Failure => PollReport::Failed,
    }
}

/// Apply one poll outcome to the slot's value.
pub fn apply_outcome(slot: &mut Option<Vec<u8>>, outcome: PollOutcome) -> (r: PollReport)
    ensures
        slot_view(*final(slot)) == slot_after(slot_view(*old(slot)), outcome),
        r == report_of(outcome),
{
    match outcome {
        PollOutcome::Image(img) => {
            *slot = Some(img);
            PollReport::Updated
        },
        PollOutcome::NoTask => PollReport::NoTask,
        PollOutcome::Failure => PollReport::Failed,
    }
}

/// Relies on graphviz_rust::exec_dot to lay out a graph description and
/// render it as PNG bytes. The outcome depends on the layout tool installed
/// on the machine, so nothing is assumed of it: every caller must cope with
/// both an image and a failure.
#[verifier::external_body]
fn render_dot_png(dot: Vec<u8>) -> Result<Vec<u8>, RenderError> {
    let text = match String::from_utf8(dot) {
        Ok(text) => text,
        Err(_) => {
            return Err(RenderError);
        },
    };
    match graphviz_rust::exec_dot(text, vec![graphviz_rust::cmd::Format::Png.into()]) {
        Ok(png) => Ok(png),
        Err(_) => Err(RenderError),
    }
}

/// The outcome that a render result yields: the image exactly as the
/// renderer produced it, or a failure. The renderer itself is free to fail
/// on any description; what each of its answers means is fixed here.
pub fn outcome_of_render(rendered: Result<Vec<u8>, RenderError>) -> (o: PollOutcome)
    ensures
        match rendered {
            Ok(img) => o matches PollOutcome::Image(p) && p@ == img@,
            Err(_) => o is Failure,
        },
{
    match rendered {
        Ok(img) => PollOutcome::Image(img),
        Err(_) => PollOutcome::Failure,
    }
}

/// Turn what the network step handed back into this iteration's outcome:
/// decode the body, and render the graph description if one is present.
/// Whether rendering succeeds is up to the layout tool; everything else is
/// pinned down.
pub fn evaluate_poll(fetch: FetchResult) -> (o: PollOutcome)
    ensures
        match fetch {
            FetchResult::NetworkError => o is Failure,
            FetchResult::Body(body) => match spec_parse_response(body@) {
                Some(task) => match task {
                    Some(_) => o is Image || o is Failure,
                    None => o is NoTask,
                },
                None => o is Failure,
            },
        },
{
    match fetch {
        FetchResult::NetworkError => PollOutcome::Failure,
        FetchResult::Body(body) => match parse_response(body.as_slice()) {
            Err(ParseError) => PollOutcome::Failure,
            Ok(None) => PollOutcome::NoTask,
            Ok(Some(dot)) => outcome_of_render(render_dot_png(dot)),
        },
    }
}

/// One whole poll iteration after the network step: decode, render, publish.
/// A fresh image overwrites the slot; no task, a malformed body, a network
/// failure or a rendering failure leave it untouched. The report is what the
/// loop should log.
pub fn poll_iteration(slot: &SharedSlot, fetch: FetchResult) -> (r: PollReport)
    ensures
        match fetch {
            FetchResult::NetworkError => r is Failed,
            FetchResult::Body(body) => match spec_parse_response(body@) {
                Some(task) => match task {
                    Some(_) => r is Updated || r is Failed,
                    None => r is NoTask,
                },
                None => r is Failed,
            },
        },
{
    let outcome = evaluate_poll(fetch);
    slot.publish(outcome)
}

/// The slot's content after a whole sequence of poll outcomes, applied in
/// order to an initial content.
pub open spec fn slot_after_all(init: Option<Seq<u8>>, outcomes: Seq<PollOutcome>) -> Option<
    Seq<u8>,
>
    decreases outcomes.len(),
{
    if outcomes.len() == 0 {
        init
    } else {
        slot_after_all(slot_after(init, outcomes[0]), outcomes.subrange(1, outcomes.len() as int))
    }
}

/// The most recently produced image of a sequence of outcomes, if any poll
/// produced one.
pub open spec fn last_image(outcomes: Seq<PollOutcome>) -> Option<Seq<u8>>
    decreases outcomes.len(),
{
    if outcomes.len() == 0 {
        None
    } else {
        match outcomes.last() {
            PollOutcome::Image(img) => Some(img@),
            _ => last_image(outcomes.drop_last()),
        }
    }
}

proof fn lemma_slot_after_all_snoc(
    init: Option<Seq<u8>>,
    outcomes: Seq<PollOutcome>,
    last: PollOutcome,
)
    ensures
        slot_after_all(init, outcomes.push(last)) == slot_after(
            slot_after_all(init, outcomes),
            last,
        ),
    decreases outcomes.len(),
{
    let whole = outcomes.push(last);
    if outcomes.len() == 0 {
        assert(whole[0] == last);
        assert(whole.subrange(1, whole.len() as int) =~= Seq::<PollOutcome>::empty());
        assert(slot_after_all(slot_after(init, whole[0]), Seq::<PollOutcome>::empty())
            == slot_after(init, whole[0]));
    } else {
        assert(whole[0] == outcomes[0]);
        assert(whole.subrange(1, whole.len() as int) =~= outcomes.subrange(
            1,
            outcomes.len() as int,
        ).push(last));
        lemma_slot_after_all_snoc(
            slot_after(init, outcomes[0]),
            outcomes.subrange(1, outcomes.len() as int),
            last,
        );
    }
}

/// After any sequence of poll outcomes, the slot holds the most recently
/// produced image; if no poll ever produced one, it still holds what it
/// started with. Started empty, it is then empty, and the presenter shows
/// the placeholder.
pub proof fn lemma_slot_tracks_latest_image(init: Option<Seq<u8>>, outcomes: Seq<PollOutcome>)
    ensures
        slot_after_all(init, outcomes) == match last_image(outcomes) {
            Some(img) => Some(img),
            None => init,
        },
    decreases outcomes.len(),
{
    if outcomes.len() > 0 {
        let front = outcomes.drop_last();
        lemma_slot_tracks_latest_image(init, front);
        assert(outcomes =~= front.push(outcomes.last()));
        lemma_slot_after_all_snoc(init, front, outcomes.last());
    }
}

} // verus!
