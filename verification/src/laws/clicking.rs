//! What holds of clicks and double clicks.

use vstd::prelude::*;

use crate::clicks;
use crate::clicks::{ClickSample, LastClick};
use crate::clock;
use crate::clock::Instant;

verus! {

/// It does not matter into which checks the clicks fall: a double click whose two
/// clicks are read apart is the double click that it would be if they were read
/// together.
pub proof fn checks_do_not_split_double_clicks(
    last: LastClick,
    earlier: Seq<ClickSample>,
    later: Seq<ClickSample>,
)
    requires
        !clicks::has_double_click(last, earlier),
    ensures
        clicks::has_double_click(last, earlier + later) == clicks::has_double_click(
            clicks::last_click_after(last, earlier),
            later,
        ),
        clicks::last_click_after(last, earlier + later) == clicks::last_click_after(
            clicks::last_click_after(last, earlier),
            later,
        ),
{
    let all = earlier + later;
    let between = clicks::last_click_after(last, earlier);
    let n = earlier.len() as int;
    assert forall|i: int| 0 <= i < later.len() implies #[trigger] clicks::completes_double_click(
        between,
        later,
        i,
    ) == clicks::completes_double_click(last, all, n + i) by {
        assert(all[n + i] == later[i]);
        if i > 0 {
            assert(all[n + i - 1] == later[i - 1]);
        } else if n > 0 {
            assert(all[n - 1] == earlier.last());
        }
    }
    assert forall|i: int| 0 <= i < n implies !#[trigger] clicks::completes_double_click(
        last,
        all,
        i,
    ) by {
        assert(all[i] == earlier[i]);
        if i > 0 {
            assert(all[i - 1] == earlier[i - 1]);
        }
        assert(!clicks::completes_double_click(last, earlier, i));
    }
    if clicks::has_double_click(last, all) {
        let i = choose|i: int|
            0 <= i < all.len() && #[trigger] clicks::completes_double_click(last, all, i);
        assert(clicks::completes_double_click(between, later, i - n));
    }
    if clicks::has_double_click(between, later) {
        let i = choose|i: int|
            0 <= i < later.len() && #[trigger] clicks::completes_double_click(between, later, i);
        assert(clicks::completes_double_click(last, all, n + i));
    }
    if later.len() > 0 {
        assert(all.last() == later.last());
    } else {
        assert(all =~= earlier);
    }
}

/// A double click is one event: its second click does not begin another.
pub proof fn a_double_click_is_one_event(
    last: LastClick,
    clicked: Seq<ClickSample>,
    next: ClickSample,
)
    requires
        clicks::has_double_click(last, clicked),
    ensures
        !clicks::has_double_click(clicks::last_click_after(last, clicked), seq![next]),
{
    let after = clicks::last_click_after(last, clicked);
    assert forall|i: int| 0 <= i < 1 implies !#[trigger] clicks::completes_double_click(
        after,
        seq![next],
        i,
    ) by {}
}

/// The two clicks of a double click are in one process.
pub proof fn clicks_in_two_processes_are_single(first: ClickSample, second: ClickSample)
    requires
        first.process_id != second.process_id,
    ensures
        !clicks::has_double_click(None, seq![first, second]),
{
    let both = seq![first, second];
    assert forall|i: int| 0 <= i < 2 implies !#[trigger] clicks::completes_double_click(
        None,
        both,
        i,
    ) by {}
}

/// The span between two points in time is what lies between them, and nothing where the
/// later one comes first. A millisecond is a million nanoseconds.
pub proof fn spans_are_what_lies_between(from: Instant, now: Instant, ms: int)
    ensures
        from.nanos <= now.nanos ==> from.nanos + clock::elapsed(from, now) == now.nanos,
        now.nanos <= from.nanos ==> clock::elapsed(from, now) == 0,
        clock::span(from, now).nanos == clock::elapsed(from, now),
        clock::millis(ms) == ms * 1_000_000,
{
}

/// A click follows another of the same process within half a second and eight pixels on
/// either axis.
pub open spec fn follows(
    at: Instant,
    process_id: u32,
    x: i32,
    y: i32,
    second: ClickSample,
) -> bool {
    &&& second.process_id == process_id
    &&& 0 <= second.at.nanos - at.nanos <= 500_000_000
    &&& -8 <= second.x - x <= 8
    &&& -8 <= second.y - y <= 8
}

/// Clicks hold a double click exactly where one of them follows the one before it
/// closely, the first of them the remembered one.
pub proof fn double_clicks_follow_closely(last: LastClick, made: Seq<ClickSample>)
    ensures
        clicks::has_double_click(last, made) <==> {
            ||| made.len() > 0 && (last matches Some((at, process_id, x, y)) && follows(
                at,
                process_id,
                x,
                y,
                made[0],
            ))
            ||| exists|i: int|
                0 < i < made.len() && follows(
                    made[i - 1].at,
                    made[i - 1].process_id,
                    made[i - 1].x,
                    made[i - 1].y,
                    #[trigger] made[i],
                )
        },
{
    if clicks::has_double_click(last, made) {
        let i = choose|i: int|
            0 <= i < made.len() && #[trigger] clicks::completes_double_click(last, made, i);
        if i > 0 {
            assert(follows(
                made[i - 1].at,
                made[i - 1].process_id,
                made[i - 1].x,
                made[i - 1].y,
                made[i],
            ));
        }
    }
    if made.len() > 0 && (last matches Some((at, process_id, x, y)) && follows(
        at,
        process_id,
        x,
        y,
        made[0],
    )) {
        assert(clicks::completes_double_click(last, made, 0));
    }
    if exists|i: int|
        0 < i < made.len() && follows(
            made[i - 1].at,
            made[i - 1].process_id,
            made[i - 1].x,
            made[i - 1].y,
            #[trigger] made[i],
        ) {
        let i = choose|i: int|
            0 < i < made.len() && follows(
                made[i - 1].at,
                made[i - 1].process_id,
                made[i - 1].x,
                made[i - 1].y,
                #[trigger] made[i],
            );
        assert(clicks::completes_double_click(last, made, i));
    }
}

/// The last click is remembered for the next check, unless a double click used it up.
pub proof fn the_last_click_is_remembered(last: LastClick, made: Seq<ClickSample>)
    ensures
        ({
            let after = clicks::last_click_after(last, made);
            &&& clicks::has_double_click(last, made) ==> after is None
            &&& !clicks::has_double_click(last, made) && made.len() == 0 ==> after == last
            &&& !clicks::has_double_click(last, made) && made.len() > 0 ==> after == Some(
                (made.last().at, made.last().process_id, made.last().x, made.last().y),
            )
        }),
{
}

/// A check gets the clicks of its own process that are at most six hundred and fifty
/// milliseconds old, and no others.
pub proof fn checks_get_their_own_clicks(
    queued: Seq<ClickSample>,
    process_id: u32,
    now: Instant,
    click: ClickSample,
)
    ensures
        clicks::current_clicks(queued, process_id, now).contains(click) <==> queued.contains(click)
            && click.process_id == process_id && now.nanos - click.at.nanos <= 650_000_000,
{
    let current = |click: ClickSample| clicks::is_current_click(click, process_id, now);
    if clicks::current_clicks(queued, process_id, now).contains(click) {
        queued.lemma_filter_contains_rev(current, click);
        let i = queued.filter(current).index_of(click);
        queued.lemma_filter_pred(current, i);
    }
    if queued.contains(click) && current(click) {
        let i = queued.index_of(click);
        queued.lemma_filter_contains(current, i);
    }
}

/// The latest twelve clicks are kept, in order.
pub proof fn the_latest_clicks_are_kept(queued: Seq<ClickSample>, sample: ClickSample)
    requires
        queued.len() <= 12,
    ensures
        ({
            let after = clicks::recorded(queued, sample);
            &&& after.last() == sample
            &&& queued.len() < 12 ==> after == queued.push(sample)
            &&& queued.len() == 12 ==> after == queued.push(sample).skip(1)
        }),
{
    assert(queued.len() == 12 ==> clicks::recorded(queued, sample) =~= queued.push(sample).skip(1));
}

/// The highest bit of a key state tells that the key is down, and the lowest that it
/// was pressed since the last query.
pub proof fn key_states_are_two_flags(state: u16)
    ensures
        clicks::key_is_down(state) <==> state >= 0x8000,
        clicks::key_was_pressed(state) <==> state as int % 2 == 1,
{
    assert((state & 0x8000 != 0) == (state >= 0x8000)) by (bit_vector);
    assert((state & 0x0001 != 0) == (state % 2 == 1)) by (bit_vector);
}

/// A key that is held is noticed once: at the first poll that finds it down.
pub proof fn a_held_key_is_noticed_once(state: u16, was_down: bool)
    ensures
        clicks::newly_down(state, was_down) <==> state >= 0x8000 && !was_down,
        !clicks::newly_down(state, clicks::key_is_down(state)),
{
    key_states_are_two_flags(state);
}

/// Over two polls each key is noticed at the one that first finds it down, and again only
/// after it was let go. The two keys do not mix.
pub proof fn presses_are_noticed_once(
    escape_was_down: bool,
    left_was_down: bool,
    escape: u16,
    left: u16,
    next_escape: u16,
    next_left: u16,
)
    ensures
        ({
            let (first, escape_down, left_down) = clicks::polled(
                escape_was_down,
                left_was_down,
                escape,
                left,
            );
            let (second, _, _) = clicks::polled(escape_down, left_down, next_escape, next_left);
            &&& first.escape <==> escape >= 0x8000 && !escape_was_down
            &&& first.left_click <==> left >= 0x8000 && !left_was_down
            &&& second.escape <==> next_escape >= 0x8000 && escape < 0x8000
            &&& second.left_click <==> next_left >= 0x8000 && left < 0x8000
        }),
{
    key_states_are_two_flags(escape);
    key_states_are_two_flags(left);
    key_states_are_two_flags(next_escape);
    key_states_are_two_flags(next_left);
}

} // verus!
