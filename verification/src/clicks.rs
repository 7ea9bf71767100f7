//! Mouse clicks and double clicks.

use vstd::prelude::*;

use crate::clock;
use crate::clock::Instant;
use std::collections::VecDeque;

verus! {

/// Clicks that are kept for the next state check.
pub const CLICK_QUEUE_LIMIT: usize = 12;

/// Age in milliseconds beyond which a kept click is dropped.
pub const CLICK_MAX_AGE_MS: u64 = 650;

/// Longest pause in milliseconds between the two clicks of a double click.
pub const DOUBLE_CLICK_MS: u64 = 500;

/// Largest move in pixels, on either axis, between the two clicks of a double click.
pub const DOUBLE_CLICK_SLOP: i64 = 8;

/// A press of the left mouse button.
#[derive(Debug, Clone, Copy, PartialEq, Eq, Structural)]
pub struct ClickSample {
    pub at: Instant,
    pub process_id: u32,
    pub x: i32,
    pub y: i32,
}

/// The click that a following one may complete to a double click: when, in
/// which process, and where.
pub type LastClick = Option<(Instant, u32, i32, i32)>;

/// `second` follows `first` closely enough, in time and place, to be a double click.
pub open spec fn is_double_click(first: (Instant, u32, i32, i32), second: ClickSample) -> bool {
    &&& first.1 == second.process_id
    &&& first.0.nanos <= second.at.nanos
    &&& second.at.nanos - first.0.nanos <= clock::millis(DOUBLE_CLICK_MS as int)
    &&& -DOUBLE_CLICK_SLOP <= second.x - first.2 <= DOUBLE_CLICK_SLOP
    &&& -DOUBLE_CLICK_SLOP <= second.y - first.3 <= DOUBLE_CLICK_SLOP
}

pub open spec fn as_last_click(click: ClickSample) -> (Instant, u32, i32, i32) {
    (click.at, click.process_id, click.x, click.y)
}

/// The click before the one at index `i`: the one before it in `clicks`, or the
/// remembered one before the first.
pub open spec fn preceding_click(last: LastClick, clicks: Seq<ClickSample>, i: int) -> LastClick {
    if i == 0 {
        last
    } else {
        Some(as_last_click(clicks[i - 1]))
    }
}

/// The click at index `i` completes a double click.
pub open spec fn completes_double_click(
    last: LastClick,
    clicks: Seq<ClickSample>,
    i: int,
) -> bool {
    preceding_click(last, clicks, i) matches Some(first) && is_double_click(first, clicks[i])
}

/// Some click of `clicks` completes a double click.
pub open spec fn has_double_click(last: LastClick, clicks: Seq<ClickSample>) -> bool {
    exists|i: int| 0 <= i < clicks.len() && #[trigger] completes_double_click(last, clicks, i)
}

/// The click to remember after `clicks`: a double click uses up both of its clicks.
pub open spec fn last_click_after(last: LastClick, clicks: Seq<ClickSample>) -> LastClick {
    if has_double_click(last, clicks) {
        None
    } else if clicks.len() == 0 {
        last
    } else {
        Some(as_last_click(clicks.last()))
    }
}

/// Reads `click_samples` in order, and reports whether one of them completed a
/// double click. One double click is one event: its second click is not the
/// first click of another.
pub fn consume_click_samples(
    last_left_click: &mut LastClick,
    click_samples: Vec<ClickSample>,
) -> (double_click: bool)
    ensures
        double_click == has_double_click(*old(last_left_click), click_samples@),
        *final(last_left_click) == last_click_after(*old(last_left_click), click_samples@),
{
    let ghost before = *last_left_click;
    let mut double_click = false;
    let mut i: usize = 0;
    while i < click_samples.len()
        invariant
            before == *old(last_left_click),
            i <= click_samples.len(),
            *last_left_click == preceding_click(before, click_samples@, i as int),
            double_click ==> has_double_click(before, click_samples@),
            !double_click ==> forall|j: int|
                0 <= j < i ==> !#[trigger] completes_double_click(before, click_samples@, j),
        decreases click_samples.len() - i,
    {
        let sample = click_samples[i];
        if let Some((at, process_id, x, y)) = *last_left_click {
            let dx: i64 = sample.x as i64 - x as i64;
            let dy: i64 = sample.y as i64 - y as i64;
            let soon = match sample.at.checked_duration_since(at) {
                Some(pause) => pause.at_most(DOUBLE_CLICK_MS),
                None => false,
            };
            if process_id == sample.process_id && soon && -DOUBLE_CLICK_SLOP <= dx && dx
                <= DOUBLE_CLICK_SLOP && -DOUBLE_CLICK_SLOP <= dy && dy <= DOUBLE_CLICK_SLOP {
                assert(completes_double_click(before, click_samples@, i as int));
                double_click = true;
            }
        }
        *last_left_click = Some((sample.at, sample.process_id, sample.x, sample.y));
        i += 1;
    }
    if double_click {
        *last_left_click = None;
    }
    double_click
}

/// Clicks between two state checks, oldest first.
pub struct ClickQueue {
    samples: VecDeque<ClickSample>,
}

impl View for ClickQueue {
    type V = Seq<ClickSample>;

    closed spec fn view(&self) -> Seq<ClickSample> {
        self.samples@
    }
}

/// A click of the process `process_id` that is not too old at `now`.
pub open spec fn is_current_click(click: ClickSample, process_id: u32, now: Instant) -> bool {
    clock::elapsed(click.at, now) <= clock::millis(CLICK_MAX_AGE_MS as int) && click.process_id
        == process_id
}

/// The clicks of `queued` that belong to `process_id` and are not too old, in order.
pub open spec fn current_clicks(
    queued: Seq<ClickSample>,
    process_id: u32,
    now: Instant,
) -> Seq<ClickSample> {
    queued.filter(|click: ClickSample| is_current_click(click, process_id, now))
}

/// The clicks that are kept once `sample` came: the oldest makes room for it.
pub open spec fn recorded(queued: Seq<ClickSample>, sample: ClickSample) -> Seq<ClickSample> {
    if queued.len() >= CLICK_QUEUE_LIMIT {
        queued.drop_first().push(sample)
    } else {
        queued.push(sample)
    }
}

impl ClickQueue {
    /// The queue never outgrows its limit.
    pub open spec fn wf(self) -> bool {
        self@.len() <= CLICK_QUEUE_LIMIT
    }

    pub fn new() -> (queue: ClickQueue)
        ensures
            queue@ == Seq::<ClickSample>::empty(),
            queue.wf(),
    {
        ClickQueue { samples: VecDeque::new() }
    }

    /// Keeps `sample`, at the cost of the oldest click when the queue is full.
    pub fn record(&mut self, sample: ClickSample)
        requires
            old(self).wf(),
        ensures
            final(self).wf(),
            final(self)@ == recorded(old(self)@, sample),
    {
        if self.samples.len() >= CLICK_QUEUE_LIMIT {
            let _ = self.samples.pop_front();
            assert(self.samples@ =~= old(self)@.drop_first());
        }
        self.samples.push_back(sample);
    }
}

/// Empties the queue, and hands out the clicks of `process_id` that are not too
/// old, in order.
pub fn take_click_samples(queue: &mut ClickQueue, process_id: u32, now: Instant) -> (matching: Vec<
    ClickSample,
>)
    ensures
        matching@ == current_clicks(old(queue)@, process_id, now),
        final(queue)@ == Seq::<ClickSample>::empty(),
        final(queue).wf(),
{
    let ghost all = queue@;
    let ghost current = |click: ClickSample| is_current_click(click, process_id, now);
    let ghost mut taken: int = 0;
    let mut matching: Vec<ClickSample> = Vec::new();
    assert(all.take(0).filter(current) =~= Seq::<ClickSample>::empty()) by {
        reveal(Seq::filter);
    }
    while queue.samples.len() > 0
        invariant
            0 <= taken <= all.len(),
            queue@ == all.skip(taken),
            current == (|click: ClickSample| is_current_click(click, process_id, now)),
            matching@ == all.take(taken).filter(current),
        decreases queue@.len(),
    {
        let ghost before = queue.samples@;
        let popped = queue.samples.pop_front();
        if let Some(sample) = popped {
            if now.duration_since(sample.at).at_most(CLICK_MAX_AGE_MS) && sample.process_id
                == process_id {
                matching.push(sample);
            }
            proof {
                assert(sample == all[taken]);
                assert(all.take(taken + 1).drop_last() =~= all.take(taken));
                reveal(Seq::filter);
                taken = taken + 1;
                assert(queue@ =~= all.skip(taken));
            }
        }
    }
    assert(all.take(taken) =~= all);
    matching
}

/// Polls the keys that a slow state check would miss, and reports each press once.
pub struct PressWatcher {
    pub escape_was_down: bool,
    pub left_was_down: bool,
}

/// What a poll of the watched keys has found.
#[derive(Debug, Clone, Copy, PartialEq, Eq, Structural)]
pub struct WatchedPresses {
    pub escape: bool,
    pub left_click: bool,
}

/// The high bit of an asynchronous key state: the key is down.
pub open spec fn key_is_down(state: u16) -> bool {
    state & 0x8000 != 0
}

/// The low bit of an asynchronous key state: the key went down since the last query.
pub open spec fn key_was_pressed(state: u16) -> bool {
    state & 0x0001 != 0
}

/// Whether the key is down, and whether it went down since the last query.
pub fn key_sample(state: u16) -> (sample: (bool, bool))
    ensures
        sample.0 == key_is_down(state),
        sample.1 == key_was_pressed(state),
{
    (state & 0x8000 != 0, state & 0x0001 != 0)
}

/// The key is down and was not down at the poll before.
pub open spec fn newly_down(state: u16, was_down: bool) -> bool {
    key_is_down(state) && !was_down
}

/// What a poll finds where the two keys were down before or not, and whether they are
/// down now.
pub open spec fn polled(
    escape_was_down: bool,
    left_was_down: bool,
    escape_state: u16,
    left_state: u16,
) -> (WatchedPresses, bool, bool) {
    (
        WatchedPresses {
            escape: newly_down(escape_state, escape_was_down),
            left_click: newly_down(left_state, left_was_down),
        },
        key_is_down(escape_state),
        key_is_down(left_state),
    )
}

impl PressWatcher {
    pub fn new() -> (watcher: PressWatcher)
        ensures
            !watcher.escape_was_down,
            !watcher.left_was_down,
    {
        PressWatcher { escape_was_down: false, left_was_down: false }
    }

    /// Reads the two key states; a press is a key that is down and was not down before.
    pub fn poll(&mut self, escape_state: u16, left_state: u16) -> (presses: WatchedPresses)
        ensures
            presses.escape == newly_down(escape_state, old(self).escape_was_down),
            presses.left_click == newly_down(left_state, old(self).left_was_down),
            final(self).escape_was_down == key_is_down(escape_state),
            final(self).left_was_down == key_is_down(left_state),
            (presses, final(self).escape_was_down, final(self).left_was_down) == polled(
                old(self).escape_was_down,
                old(self).left_was_down,
                escape_state,
                left_state,
            ),
    {
        let (escape_down, _) = key_sample(escape_state);
        let (left_down, _) = key_sample(left_state);
        let presses = WatchedPresses {
            escape: escape_down && !self.escape_was_down,
            left_click: left_down && !self.left_was_down,
        };
        self.escape_was_down = escape_down;
        self.left_was_down = left_down;
        presses
    }
}

} // verus!
