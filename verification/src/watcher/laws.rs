//! What holds of the watcher over many events.

use crate::watcher::{
    ConfigWatcher, EventKind, WatchCommand, WatchEvent, WatchInput, WatchSignal, WatcherView,
    DEBOUNCE_NANOS,
};
use vstd::prelude::*;

verus! {

/// A signal, whether there still is a manager, and the time.
pub struct Moment {
    pub signal: WatchSignal,
    pub manager_alive: bool,
    pub now: int,
}

/// The state after some signals.
pub open spec fn watched(watcher: WatcherView, moments: Seq<Moment>) -> WatcherView
    decreases moments.len(),
{
    if moments.len() == 0 {
        watcher
    } else {
        let m = moments.last();
        watched(watcher, moments.drop_last()).after(m.signal, m.manager_alive, m.now)
    }
}

/// The command that follows the last of some signals.
pub open spec fn last_command(watcher: WatcherView, moments: Seq<Moment>) -> WatchCommand
    recommends
        moments.len() > 0,
{
    let m = moments.last();
    watched(watcher, moments.drop_last()).command(m.signal, m.manager_alive, m.now)
}

/// How many reloads some signals lead to.
pub open spec fn reloads(watcher: WatcherView, moments: Seq<Moment>) -> nat
    decreases moments.len(),
{
    if moments.len() == 0 {
        0
    } else {
        reloads(watcher, moments.drop_last()) + if last_command(watcher, moments)
            == WatchCommand::Reload {
            1nat
        } else {
            0nat
        }
    }
}

/// How many of some signals are changes of the watched file.
pub open spec fn changes(moments: Seq<Moment>) -> nat
    decreases moments.len(),
{
    if moments.len() == 0 {
        0
    } else {
        changes(moments.drop_last()) + if moments.last().signal == WatchSignal::Change {
            1nat
        } else {
            0nat
        }
    }
}

/// There are never more reloads than changes, and a reload that is still due
/// has its own change: no reload comes out of nothing, and none out of another
/// reload.
pub proof fn law_every_reload_has_its_change(watcher: WatcherView, moments: Seq<Moment>)
    requires
        watcher.last_change is None,
    ensures
        reloads(watcher, moments) + if watched(watcher, moments).last_change is Some {
            1nat
        } else {
            0nat
        } <= changes(moments),
        watched(watcher, moments).file_name == watcher.file_name,
        watched(watcher, moments).auto_reload == watcher.auto_reload,
    decreases moments.len(),
{
    if moments.len() > 0 {
        law_every_reload_has_its_change(watcher, moments.drop_last());
    }
}

/// Without a change of the watched file there is no reload, whatever else
/// happens in its directory.
pub proof fn law_noise_never_reloads(watcher: WatcherView, moments: Seq<Moment>)
    requires
        watcher.last_change is None,
        forall|i: int|
            0 <= i < moments.len() ==> (#[trigger] moments[i]).signal != WatchSignal::Change,
    ensures
        reloads(watcher, moments) == 0,
        watched(watcher, moments) == watcher,
    decreases moments.len(),
{
    if moments.len() > 0 {
        law_noise_never_reloads(watcher, moments.drop_last());
    }
}

/// Without auto reload there is no reload at all.
pub proof fn law_no_reload_unless_enabled(watcher: WatcherView, moments: Seq<Moment>)
    requires
        watcher.last_change is None,
        !watcher.auto_reload,
    ensures
        reloads(watcher, moments) == 0,
        watched(watcher, moments) == watcher,
    decreases moments.len(),
{
    if moments.len() > 0 {
        law_no_reload_unless_enabled(watcher, moments.drop_last());
    }
}

/// Whether some signals are one burst: events only, of which the first is a
/// change, and none comes later than the quiet time after the last change.
pub open spec fn is_burst(watcher: WatcherView, moments: Seq<Moment>) -> bool {
    &&& moments.len() > 0
    &&& moments[0].signal == WatchSignal::Change
    &&& moments[0].manager_alive
    &&& forall|i: int|
        1 <= i < moments.len() ==> {
            ||| (#[trigger] moments[i]).signal == WatchSignal::Change
            ||| moments[i].signal == WatchSignal::Noise && watched(
                watcher,
                moments.take(i),
            ).remaining(moments[i].now) > 0
        }
}

/// A burst leads to no reload before it is over.
proof fn lemma_burst_is_held(watcher: WatcherView, burst: Seq<Moment>)
    requires
        watcher.last_change is None,
        watcher.auto_reload,
        is_burst(watcher, burst),
    ensures
        reloads(watcher, burst) == 0,
        watched(watcher, burst).last_change is Some,
    decreases burst.len(),
{
    reveal_with_fuel(watched, 2);
    reveal_with_fuel(reloads, 2);
    let before = burst.drop_last();
    if burst.len() > 1 {
        assert forall|i: int| 1 <= i < before.len() implies {
            ||| (#[trigger] before[i]).signal == WatchSignal::Change
            ||| before[i].signal == WatchSignal::Noise && watched(watcher, before.take(i)).remaining(
                before[i].now,
            ) > 0
        } by {
            assert(before[i] == burst[i]);
            assert(before.take(i) =~= burst.take(i));
        }
        lemma_burst_is_held(watcher, before);
        let last = burst.len() - 1;
        assert(burst.take(last) =~= before);
        assert(burst[last] == burst.last());
    } else {
        assert(burst.last() == burst[0]);
        assert(before =~= Seq::<Moment>::empty());
    }
}

/// A burst of changes, however many, and whatever noise is between them, ends
/// in exactly one reload: when nothing more comes in the quiet time, or when
/// noise comes after it.
pub proof fn law_burst_reloads_once(watcher: WatcherView, burst: Seq<Moment>, end: Moment)
    requires
        watcher.last_change is None,
        watcher.auto_reload,
        is_burst(watcher, burst),
        end.signal == WatchSignal::TimedOut || end.signal == WatchSignal::Closed || end.signal
            == WatchSignal::Noise && watched(watcher, burst).remaining(end.now) == 0,
    ensures
        reloads(watcher, burst) == 0,
        reloads(watcher, burst.push(end)) == 1,
        last_command(watcher, burst.push(end)) == WatchCommand::Reload,
        watched(watcher, burst.push(end)) == watcher,
{
    lemma_burst_is_held(watcher, burst);
    law_every_reload_has_its_change(watcher, burst);
    assert(burst.push(end).drop_last() =~= burst);
    assert(burst.push(end).last() == end);
}

/// Noise while a reload is due does not put it off: the time that is left only
/// goes down, and the reload comes once it is used up.
pub proof fn law_noise_does_not_put_off(watcher: WatcherView, manager_alive: bool, now: int)
    requires
        watcher.last_change is Some,
    ensures
        ({
            let command = watcher.command(WatchSignal::Noise, manager_alive, now);
            &&& command is ReceiveFor <==> watcher.remaining(now) > 0
            &&& command is ReceiveFor ==> command->ReceiveFor_0 == watcher.remaining(now)
                && watcher.after(WatchSignal::Noise, manager_alive, now) == watcher
            &&& command is Reload <==> watcher.remaining(now) == 0
        }),
        forall|later: int|
            now <= later ==> #[trigger] watcher.remaining(later) <= watcher.remaining(now),
{
}

/// A wait for the time that is left ends when it has been quiet long enough.
pub proof fn law_timeout_ends_the_quiet_time(watcher: WatcherView, waited_from: int, now: int)
    requires
        watcher.last_change matches Some(last) && last <= waited_from,
        now >= waited_from + watcher.remaining(waited_from),
    ensures
        watcher.remaining(now) == 0,
        now - watcher.last_change->0 >= DEBOUNCE_NANOS,
{
}

/// Unless there are no more events, the reload that is due comes exactly when it
/// has been quiet long enough and there is no further change.
pub proof fn law_reload_waits_for_quiet(
    watcher: WatcherView,
    signal: WatchSignal,
    manager_alive: bool,
    now: int,
)
    requires
        watcher.last_change is Some,
        signal != WatchSignal::Closed,
        signal == WatchSignal::TimedOut ==> watcher.remaining(now) == 0,
    ensures
        watcher.command(signal, manager_alive, now) == WatchCommand::Reload <==> signal
            != WatchSignal::Change && watcher.remaining(now) == 0,
{
}

/// A change while a reload is due puts it off by the whole quiet time.
pub proof fn law_change_puts_off(watcher: WatcherView, manager_alive: bool, now: int)
    requires
        watcher.last_change is Some,
    ensures
        watcher.command(WatchSignal::Change, manager_alive, now) == WatchCommand::ReceiveFor(
            DEBOUNCE_NANOS,
        ),
        watcher.after(WatchSignal::Change, manager_alive, now) == watcher.stirred(now),
        watcher.stirred(now).remaining(now) == DEBOUNCE_NANOS,
{
}

/// Once there is no manager, the next event ends the watcher, unless a reload
/// is due; that comes first.
pub proof fn law_ends_without_manager(watcher: WatcherView, signal: WatchSignal, now: int)
    ensures
        watcher.last_change is None <==> watcher.command(signal, false, now) == WatchCommand::Exit,
        watcher.command(signal, true, now) == WatchCommand::Exit <==> watcher.last_change is None
            && signal == WatchSignal::Closed,
{
}

/// An event in the watched directory: whether it is a change of the watched file
/// or noise, and when it happens.
pub struct Happening {
    pub change: bool,
    pub at: int,
}

/// Whether events come one after the other.
spec fn in_time(events: Seq<Happening>) -> bool {
    forall|i: int, j: int|
        0 <= i < j < events.len() ==> (#[trigger] events[i]).at <= (#[trigger] events[j]).at
}

/// The end of the wait that the watcher is in.
pub open spec fn wait_ends(watcher: WatcherView) -> Moment {
    Moment {
        signal: WatchSignal::TimedOut,
        manager_alive: true,
        now: watcher.last_change->0 + DEBOUNCE_NANOS,
    }
}

/// How an event reaches the watcher.
spec fn arrival(event: Happening) -> Moment {
    Moment {
        signal: if event.change {
            WatchSignal::Change
        } else {
            WatchSignal::Noise
        },
        manager_alive: true,
        now: event.at,
    }
}

/// What reaches a watcher when events happen: each event, and before it the end
/// of the wait that the watcher is in, if that is not later.
spec fn received(watcher: WatcherView, events: Seq<Happening>) -> Seq<Moment>
    decreases events.len(),
{
    if events.len() == 0 {
        Seq::empty()
    } else {
        let before = received(watcher, events.drop_last());
        let state = watched(watcher, before);
        let event = events.last();
        if state.last_change is Some && event.at >= wait_ends(state).now {
            before.push(wait_ends(state)).push(arrival(event))
        } else {
            before.push(arrival(event))
        }
    }
}

/// What reaches a watcher when events happen, and nothing after them.
spec fn received_in_all(watcher: WatcherView, events: Seq<Happening>) -> Seq<Moment> {
    let moments = received(watcher, events);
    let state = watched(watcher, moments);
    if state.last_change is Some {
        moments.push(wait_ends(state))
    } else {
        moments
    }
}

/// When the watcher reloads.
pub open spec fn reload_times(watcher: WatcherView, moments: Seq<Moment>) -> Seq<int>
    decreases moments.len(),
{
    if moments.len() == 0 {
        Seq::empty()
    } else {
        let before = reload_times(watcher, moments.drop_last());
        if last_command(watcher, moments) == WatchCommand::Reload {
            before.push(moments.last().now)
        } else {
            before
        }
    }
}

/// Whether an event is the last change of a run: no change follows it within the
/// quiet time.
pub open spec fn ends_run(events: Seq<Happening>, i: int) -> bool {
    &&& 0 <= i < events.len()
    &&& events[i].change
    &&& forall|j: int|
        i < j < events.len() && (#[trigger] events[j]).change ==> events[j].at >= events[i].at
            + DEBOUNCE_NANOS
}

/// Whether the quiet time after the last change of some run ends at a time.
pub open spec fn run_is_over(events: Seq<Happening>, time: int) -> bool {
    exists|i: int| #[trigger] ends_run(events, i) && time == events[i].at + DEBOUNCE_NANOS
}

spec fn increasing(times: Seq<int>) -> bool {
    forall|i: int, j: int| 0 <= i < j < times.len() ==> (#[trigger] times[i]) < (#[trigger] times[j])
}

proof fn lemma_one_more(watcher: WatcherView, moments: Seq<Moment>, moment: Moment)
    ensures
        watched(watcher, moments.push(moment)) == watched(watcher, moments).after(
            moment.signal,
            moment.manager_alive,
            moment.now,
        ),
        reload_times(watcher, moments.push(moment)) == if watched(watcher, moments).command(
            moment.signal,
            moment.manager_alive,
            moment.now,
        ) == WatchCommand::Reload {
            reload_times(watcher, moments).push(moment.now)
        } else {
            reload_times(watcher, moments)
        },
{
    assert(moments.push(moment).drop_last() =~= moments);
}

/// What holds while events come in: `due` is the last change for which there was
/// no reload yet.
spec fn on_track(events: Seq<Happening>, due: Option<int>, times: Seq<int>) -> bool {
    &&& increasing(times)
    &&& forall|k: int|
        0 <= k < times.len() ==> events.len() > 0 && (#[trigger] times[k]) <= events.last().at
    &&& forall|t: int| #[trigger]
        times.contains(t) ==> run_is_over(events, t) && (due is Some ==> t != due->0
            + DEBOUNCE_NANOS)
    &&& forall|i: int| #[trigger]
        ends_run(events, i) && due != Some(events[i].at) ==> times.contains(
            events[i].at + DEBOUNCE_NANOS,
        )
    &&& match due {
        Some(last) => {
            &&& events.len() > 0
            &&& events.last().at < last + DEBOUNCE_NANOS
            &&& exists|i: int|
                #![trigger ends_run(events, i)]
                ends_run(events, i) && events[i].at == last && forall|j: int|
                    i < j < events.len() ==> !(#[trigger] events[j]).change
        },
        None => forall|i: int|
            0 <= i < events.len() && (#[trigger] events[i]).change ==> events[i].at
                + DEBOUNCE_NANOS <= events.last().at,
    }
}

proof fn lemma_next_happening(
    events: Seq<Happening>,
    due: Option<int>,
    times: Seq<int>,
    event: Happening,
    due_then: Option<int>,
    times_then: Seq<int>,
)
    requires
        in_time(events.push(event)),
        on_track(events, due, times),
        match due {
            Some(last) => if event.at >= last + DEBOUNCE_NANOS {
                &&& times_then == times.push(last + DEBOUNCE_NANOS)
                &&& due_then == if event.change {
                    Some(event.at)
                } else {
                    None::<int>
                }
            } else {
                &&& times_then == times
                &&& due_then == if event.change {
                    Some(event.at)
                } else {
                    due
                }
            },
            None => {
                &&& times_then == times
                &&& due_then == if event.change {
                    Some(event.at)
                } else {
                    None::<int>
                }
            },
        },
    ensures
        on_track(events.push(event), due_then, times_then),
{
    let n = events.len() as int;
    let more = events.push(event);
    assert(more[n] == event);
    assert(more.last() == event);
    assert forall|i: int| 0 <= i < n implies more[i] == events[i] by {}
    assert forall|i: int| 0 <= i < n implies (#[trigger] ends_run(more, i) <==> ends_run(events, i)
        && (event.change ==> event.at >= events[i].at + DEBOUNCE_NANOS)) by {
        if ends_run(more, i) {
            assert forall|j: int| i < j < n && (#[trigger] events[j]).change implies events[j].at
                >= events[i].at + DEBOUNCE_NANOS by {
                assert(more[j] == events[j]);
            }
            if event.change {
                assert(more[n].at >= more[i].at + DEBOUNCE_NANOS);
            }
        }
        if ends_run(events, i) && (event.change ==> event.at >= events[i].at + DEBOUNCE_NANOS) {
            assert forall|j: int| i < j < more.len() && (#[trigger] more[j]).change implies more[j].at
                >= more[i].at + DEBOUNCE_NANOS by {
                if j < n {
                    assert(more[j] == events[j]);
                }
            }
        }
    }
    assert(ends_run(more, n) <==> event.change);
    if n > 0 {
        assert(more[n - 1].at <= more[n].at);
        assert(events.last() == more[n - 1]);
    }
    // The times so far lie no later than the event.
    assert forall|k: int| 0 <= k < times.len() implies (#[trigger] times[k]) <= event.at by {}
    assert forall|t: int| #[trigger] times.contains(t) implies run_is_over(more, t) by {
        assert(run_is_over(events, t));
        let i = choose|i: int| #[trigger]
            ends_run(events, i) && t == events[i].at + DEBOUNCE_NANOS;
        let k = choose|k: int| 0 <= k < times.len() && times[k] == t;
        assert(ends_run(more, i));
        assert(more[i].at + DEBOUNCE_NANOS == t);
    }
    // The index of the change that is due.
    let at: int = if due is Some {
        choose|i: int|
            #![trigger ends_run(events, i)]
            ends_run(events, i) && events[i].at == due->0 && forall|j: int|
                i < j < events.len() ==> !(#[trigger] events[j]).change
    } else {
        -1
    };
    if due is Some {
        let last = due->0;
        assert(ends_run(events, at) && events[at].at == last);
        assert(more[at] == events[at]);
        if event.at >= last + DEBOUNCE_NANOS {
            let fired = last + DEBOUNCE_NANOS;
            assert(ends_run(more, at));
            assert(run_is_over(more, fired));
            assert(times_then[times.len() as int] == fired);
            assert forall|t: int| times.contains(t) implies #[trigger] times_then.contains(t) by {
                let k = choose|k: int| 0 <= k < times.len() && times[k] == t;
                assert(times_then[k] == t);
            }
            assert forall|t: int| #[trigger] times_then.contains(t) implies t == fired
                || times.contains(t) by {
                let k = choose|k: int| 0 <= k < times_then.len() && times_then[k] == t;
                if k < times.len() {
                    assert(times[k] == t);
                }
            }
        }
    }
    assert forall|t: int| #[trigger] times_then.contains(t) implies run_is_over(more, t) && (
    due_then is Some ==> t != due_then->0 + DEBOUNCE_NANOS) by {
        if times.contains(t) {
            let k = choose|k: int| 0 <= k < times.len() && times[k] == t;
            assert(times[k] <= event.at);
        }
    }
    assert forall|i: int| #[trigger]
        ends_run(more, i) && due_then != Some(more[i].at) implies times_then.contains(
        more[i].at + DEBOUNCE_NANOS,
    ) by {
        assert(i < n);
        assert(ends_run(events, i));
        if due != Some(events[i].at) {
            assert(times.contains(events[i].at + DEBOUNCE_NANOS));
        }
    }
    match due_then {
        Some(last) => {
            if event.change {
                assert(ends_run(more, n) && more[n].at == last);
            } else {
                assert(ends_run(more, at) && more[at].at == last);
                assert forall|j: int| at < j < more.len() implies !(#[trigger] more[j]).change by {
                    if j < n {
                        assert(more[j] == events[j]);
                    }
                }
            }
        },
        None => {
            assert forall|i: int| 0 <= i < more.len() && (#[trigger] more[i]).change implies more[i].at
                + DEBOUNCE_NANOS <= more.last().at by {
                assert(i < n);
                assert(more[i] == events[i]);
                if due is Some {
                    assert(i <= at) by {
                        if i > at {
                            assert(!events[i].change);
                        }
                    }
                    if i < at {
                        assert(more[i].at <= more[at].at);
                    }
                }
            }
        },
    }
}

proof fn lemma_on_track(watcher: WatcherView, events: Seq<Happening>)
    requires
        watcher.last_change is None,
        watcher.auto_reload,
        in_time(events),
    ensures
        on_track(
            events,
            watched(watcher, received(watcher, events)).last_change,
            reload_times(watcher, received(watcher, events)),
        ),
        watched(watcher, received(watcher, events)).auto_reload,
    decreases events.len(),
{
    if events.len() == 0 {
        assert(watched(watcher, received(watcher, events)) == watcher);
        assert(reload_times(watcher, received(watcher, events)) =~= Seq::<int>::empty());
    } else {
        let rest = events.drop_last();
        let event = events.last();
        assert(events =~= rest.push(event));
        assert(in_time(rest)) by {
            assert forall|i: int, j: int| 0 <= i < j < rest.len() implies (#[trigger] rest[i]).at <= (
            #[trigger] rest[j]).at by {
                assert(rest[i] == events[i] && rest[j] == events[j]);
            }
        }
        lemma_on_track(watcher, rest);
        let before = received(watcher, rest);
        let state = watched(watcher, before);
        let times = reload_times(watcher, before);
        assert(events[events.len() - 1] == event);
        if state.last_change is Some {
            let last = state.last_change->0;
            let at = choose|i: int|
                #![trigger ends_run(rest, i)]
                ends_run(rest, i) && rest[i].at == last && forall|j: int|
                    i < j < rest.len() ==> !(#[trigger] rest[j]).change;
            assert(rest[at].at == last);
            assert(rest[at] == events[at]);
            assert(events[at].at <= event.at);
            if event.at >= wait_ends(state).now {
                lemma_one_more(watcher, before, wait_ends(state));
                lemma_one_more(watcher, before.push(wait_ends(state)), arrival(event));
            } else {
                lemma_one_more(watcher, before, arrival(event));
            }
        } else {
            lemma_one_more(watcher, before, arrival(event));
        }
        let after = received(watcher, events);
        lemma_next_happening(
            rest,
            state.last_change,
            times,
            event,
            watched(watcher, after).last_change,
            reload_times(watcher, after),
        );
    }
}

proof fn lemma_one_reload_per_run(watcher: WatcherView, events: Seq<Happening>)
    requires
        watcher.last_change is None,
        watcher.auto_reload,
        in_time(events),
    ensures
        ({
            let moments = received_in_all(watcher, events);
            let times = reload_times(watcher, moments);
            &&& forall|t: int| #[trigger] times.contains(t) <==> run_is_over(events, t)
            &&& forall|i: int, j: int|
                0 <= i < j < times.len() ==> (#[trigger] times[i]) < (#[trigger] times[j])
            &&& watched(watcher, moments).last_change is None
        }),
{
    lemma_on_track(watcher, events);
    let moments = received(watcher, events);
    let state = watched(watcher, moments);
    let times = reload_times(watcher, moments);
    let all = received_in_all(watcher, events);
    let all_times = reload_times(watcher, all);
    if state.last_change is Some {
        let last = state.last_change->0;
        let at = choose|i: int|
            #![trigger ends_run(events, i)]
            ends_run(events, i) && events[i].at == last && forall|j: int|
                i < j < events.len() ==> !(#[trigger] events[j]).change;
        assert(events[at].at == last);
        let fired = wait_ends(state).now;
        lemma_one_more(watcher, moments, wait_ends(state));
        assert(all_times == times.push(fired));
        assert(run_is_over(events, fired));
        assert(all_times[times.len() as int] == fired);
        assert forall|t: int| times.contains(t) implies #[trigger] all_times.contains(t) by {
            let k = choose|k: int| 0 <= k < times.len() && times[k] == t;
            assert(all_times[k] == t);
        }
        assert forall|t: int| #[trigger] all_times.contains(t) implies run_is_over(
            events,
            t,
        ) by {
            let k = choose|k: int| 0 <= k < all_times.len() && all_times[k] == t;
            if k < times.len() {
                assert(times[k] == t);
                assert(times.contains(t));
            }
        }
    }
    assert forall|t: int| run_is_over(events, t) implies #[trigger] all_times.contains(t) by {
        let i = choose|i: int| #[trigger]
            ends_run(events, i) && t == events[i].at + DEBOUNCE_NANOS;
        if state.last_change != Some(events[i].at) {
            assert(times.contains(events[i].at + DEBOUNCE_NANOS));
        }
    }
}

/// An event or a watch error, and when it comes.
pub struct Delivery {
    pub input: WatchInput,
    pub at: int,
}

/// Whether events and watch errors come one after the other, and nothing else
/// comes.
pub open spec fn in_order(deliveries: Seq<Delivery>) -> bool {
    &&& forall|i: int|
        0 <= i < deliveries.len() ==> {
            ||| (#[trigger] deliveries[i]).input is Event
            ||| deliveries[i].input is WatchError
        }
    &&& forall|i: int, j: int|
        0 <= i < j < deliveries.len() ==> (#[trigger] deliveries[i]).at <= (
        #[trigger] deliveries[j]).at
}

/// What a watcher makes of what comes: an event that creates or modifies the
/// watched file is a change, every other event and every error is noise.
pub open spec fn happenings(watcher: WatcherView, deliveries: Seq<Delivery>) -> Seq<Happening> {
    deliveries.map_values(
        |d: Delivery|
            Happening { change: watcher.signal(d.input) == WatchSignal::Change, at: d.at },
    )
}

/// The signals that a watcher takes when events and errors come: each of them,
/// and before it the end of the wait that the watcher is in, if that is not
/// later.
pub open spec fn taken(watcher: WatcherView, deliveries: Seq<Delivery>) -> Seq<Moment>
    decreases deliveries.len(),
{
    if deliveries.len() == 0 {
        Seq::empty()
    } else {
        let before = taken(watcher, deliveries.drop_last());
        let state = watched(watcher, before);
        let last = deliveries.last();
        let moment = Moment {
            signal: state.signal(last.input),
            manager_alive: true,
            now: last.at,
        };
        if state.last_change is Some && last.at >= wait_ends(state).now {
            before.push(wait_ends(state)).push(moment)
        } else {
            before.push(moment)
        }
    }
}

/// The signals that a watcher takes when events and errors come, and nothing
/// after them.
pub open spec fn taken_in_all(watcher: WatcherView, deliveries: Seq<Delivery>) -> Seq<Moment> {
    let moments = taken(watcher, deliveries);
    let state = watched(watcher, moments);
    if state.last_change is Some {
        moments.push(wait_ends(state))
    } else {
        moments
    }
}

proof fn lemma_same_file(watcher: WatcherView, moments: Seq<Moment>)
    ensures
        watched(watcher, moments).file_name == watcher.file_name,
    decreases moments.len(),
{
    if moments.len() > 0 {
        lemma_same_file(watcher, moments.drop_last());
    }
}

proof fn lemma_taken(watcher: WatcherView, deliveries: Seq<Delivery>)
    requires
        in_order(deliveries),
    ensures
        taken(watcher, deliveries) == received(watcher, happenings(watcher, deliveries)),
        in_time(happenings(watcher, deliveries)),
    decreases deliveries.len(),
{
    let events = happenings(watcher, deliveries);
    if deliveries.len() > 0 {
        let rest = deliveries.drop_last();
        assert(in_order(rest)) by {
            assert forall|i: int| 0 <= i < rest.len() implies {
                ||| (#[trigger] rest[i]).input is Event
                ||| rest[i].input is WatchError
            } by {
                assert(rest[i] == deliveries[i]);
            }
            assert forall|i: int, j: int| 0 <= i < j < rest.len() implies (#[trigger] rest[i]).at <= (
            #[trigger] rest[j]).at by {
                assert(rest[i] == deliveries[i] && rest[j] == deliveries[j]);
            }
        }
        lemma_taken(watcher, rest);
        assert(events.drop_last() =~= happenings(watcher, rest));
        let before = taken(watcher, rest);
        lemma_same_file(watcher, before);
        let state = watched(watcher, before);
        let last = deliveries.last();
        assert(deliveries[deliveries.len() - 1] == last);
        assert(state.signal(last.input) == watcher.signal(last.input));
        assert(arrival(events.last()) == (Moment {
            signal: state.signal(last.input),
            manager_alive: true,
            now: last.at,
        }));
        assert forall|i: int, j: int| 0 <= i < j < events.len() implies (#[trigger] events[i]).at <= (
        #[trigger] events[j]).at by {
            assert(deliveries[i].at <= deliveries[j].at);
        }
    }
}

proof fn lemma_never_reloads(watcher: WatcherView, moments: Seq<Moment>)
    requires
        watcher.last_change is None,
        !watcher.auto_reload,
    ensures
        reload_times(watcher, moments) == Seq::<int>::empty(),
    decreases moments.len(),
{
    if moments.len() > 0 {
        lemma_never_reloads(watcher, moments.drop_last());
        law_no_reload_unless_enabled(watcher, moments.drop_last());
    }
}

/// Whatever comes in while there is a manager, at whatever times, the watcher
/// reloads once for each run of changes, a run being changes that follow one
/// another within the quiet time: exactly when the quiet time after the last
/// change of the run is over, and at no other time. Other events and errors
/// neither lead to a reload nor put one off. Without auto reload there is none.
pub proof fn law_one_reload_at_the_end_of_each_run(
    watcher: WatcherView,
    deliveries: Seq<Delivery>,
)
    requires
        watcher.last_change is None,
        in_order(deliveries),
    ensures
        ({
            let moments = taken_in_all(watcher, deliveries);
            let times = reload_times(watcher, moments);
            &&& forall|t: int| #[trigger]
                times.contains(t) <==> watcher.auto_reload && run_is_over(
                    happenings(watcher, deliveries),
                    t,
                )
            &&& forall|i: int, j: int|
                0 <= i < j < times.len() ==> (#[trigger] times[i]) < (#[trigger] times[j])
            &&& watched(watcher, moments) == watcher
        }),
{
    let events = happenings(watcher, deliveries);
    lemma_taken(watcher, deliveries);
    let moments = taken_in_all(watcher, deliveries);
    assert(moments == received_in_all(watcher, events));
    law_every_reload_has_its_change(watcher, moments);
    if watcher.auto_reload {
        lemma_one_reload_per_run(watcher, events);
    } else {
        lemma_never_reloads(watcher, moments);
        law_no_reload_unless_enabled(watcher, moments);
    }
}

/// The directory that is watched is the parent of the configuration file, or the
/// current directory where the path names none.
pub proof fn law_watched_directory(parent: Option<String>, dir: String, path: &str, target: String)
    ensures
        call_ensures(crate::watcher::watch_directory, (parent,), dir) ==> {
            &&& parent is Some && parent->0@.len() > 0 ==> dir@ == parent->0@
            &&& parent is None || parent->0@.len() == 0 ==> dir@ == "."@
        },
        call_ensures(crate::watcher::watch_target, (path,), target) ==> {
            let above = crate::path::parent_of(path@);
            &&& above is Some && above->0.len() > 0 ==> target@ == above->0
            &&& above is None || above->0.len() == 0 ==> target@ == "."@
        },
{
}

/// Each path gives the name of its file, in their order.
pub proof fn law_file_names_in_order(paths: Vec<String>, r: Vec<Option<String>>, i: int)
    requires
        call_ensures(crate::watcher::file_names, (&paths,), r),
    ensures
        r@.len() == paths@.len(),
        0 <= i < paths@.len() ==> {
            let name = crate::path::final_component(paths@[i]@);
            &&& r@[i] is Some <==> name is Some
            &&& r@[i] is Some ==> r@[i]->0@ == name->0
        },
{
    let texts = crate::watcher::opt_texts(r@);
    let wanted = crate::watcher::final_components(crate::text::texts(paths@));
    assert(texts.len() == r@.len());
    assert(wanted.len() == paths@.len());
    if 0 <= i < paths@.len() {
        assert(texts[i] == crate::text::opt_text(r@[i]));
        assert(wanted[i] == crate::path::final_component(paths@[i]@));
    }
}

/// An event counts exactly when it creates or modifies, and one of its files has
/// the watched name.
pub proof fn law_relevant_events(
    kind: EventKind,
    names: Vec<Option<String>>,
    watched_name: Option<String>,
    r: bool,
)
    requires
        call_ensures(crate::watcher::is_relevant, (kind, &names, &watched_name), r),
    ensures
        r <==> (kind == EventKind::Create || kind == EventKind::Modify) && exists|i: int|
            0 <= i < names@.len() && {
                let name = #[trigger] names@[i];
                ||| name is None && watched_name is None
                ||| name is Some && watched_name is Some && name->0@ == watched_name->0@
            },
{
    let texts = crate::watcher::opt_texts(names@);
    let wanted = crate::text::opt_text(watched_name);
    assert(texts.len() == names@.len());
    if texts.contains(wanted) {
        let i = choose|i: int| 0 <= i < texts.len() && texts[i] == wanted;
        assert(texts[i] == crate::text::opt_text(names@[i]));
    }
    if exists|i: int|
        0 <= i < names@.len() && {
            let name = #[trigger] names@[i];
            ||| name is None && watched_name is None
            ||| name is Some && watched_name is Some && name->0@ == watched_name->0@
        } {
        let i = choose|i: int|
            0 <= i < names@.len() && {
                let name = #[trigger] names@[i];
                ||| name is None && watched_name is None
                ||| name is Some && watched_name is Some && name->0@ == watched_name->0@
            };
        assert(texts[i] == wanted);
    }
}

/// What an input amounts to: a change is an event that creates or modifies a file
/// of the watched name. Every other event, and every error, is noise; the end of
/// the events and of a wait are themselves.
pub proof fn law_inputs_are_told_apart(w: ConfigWatcher, input: WatchInput, r: WatchSignal)
    requires
        call_ensures(ConfigWatcher::classify, (&w, &input), r),
    ensures
        input matches WatchInput::Event(event) ==> {
            let counts = (event.kind == EventKind::Create || event.kind == EventKind::Modify)
                && exists|i: int|
                0 <= i < event.paths@.len() && crate::path::final_component(
                    (#[trigger] event.paths@[i])@,
                ) == w@.file_name;
            &&& counts ==> r == WatchSignal::Change
            &&& !counts ==> r == WatchSignal::Noise
        },
        input is WatchError ==> r == WatchSignal::Noise,
        input is Closed ==> r == WatchSignal::Closed,
        input is TimedOut ==> r == WatchSignal::TimedOut,
{
    match input {
        WatchInput::Event(event) => {
            lemma_counts(event, w@.file_name);
        },
        _ => {},
    }
}

proof fn lemma_counts(event: WatchEvent, name: Option<Seq<char>>)
    ensures
        crate::watcher::counts(
            event.kind,
            crate::watcher::final_components(crate::text::texts(event.paths@)),
            name,
        ) <==> (event.kind == EventKind::Create || event.kind == EventKind::Modify) && exists|i: int|
            0 <= i < event.paths@.len() && crate::path::final_component(
                (#[trigger] event.paths@[i])@,
            ) == name,
{
    let names = crate::watcher::final_components(crate::text::texts(event.paths@));
    assert(names.len() == event.paths@.len());
    if names.contains(name) {
        let i = choose|i: int| 0 <= i < names.len() && names[i] == name;
        assert(names[i] == crate::path::final_component(event.paths@[i]@));
    }
    if exists|i: int|
        0 <= i < event.paths@.len() && crate::path::final_component((#[trigger] event.paths@[i])@)
            == name {
        let i = choose|i: int|
            0 <= i < event.paths@.len() && crate::path::final_component(
                (#[trigger] event.paths@[i])@,
            ) == name;
        assert(names[i] == name);
    }
}

/// What counts as a change in the runs of changes: an event that creates or
/// modifies a file of the watched name, at the time it comes.
pub proof fn law_happenings_are_what_comes(
    watcher: WatcherView,
    deliveries: Seq<Delivery>,
    i: int,
)
    requires
        0 <= i < deliveries.len(),
    ensures
        happenings(watcher, deliveries).len() == deliveries.len(),
        happenings(watcher, deliveries)[i].at == deliveries[i].at,
        happenings(watcher, deliveries)[i].change <==> (deliveries[i].input matches
            WatchInput::Event(event) && (event.kind == EventKind::Create || event.kind
            == EventKind::Modify) && exists|j: int|
            0 <= j < event.paths@.len() && crate::path::final_component(
                (#[trigger] event.paths@[j])@,
            ) == watcher.file_name),
{
    match deliveries[i].input {
        WatchInput::Event(event) => {
            lemma_counts(event, watcher.file_name);
        },
        _ => {},
    }
}

/// What a watcher does on a signal, in numbers. While no reload is due, it ends
/// when the events end or there is no manager, and otherwise goes on receiving;
/// with auto reload a change makes a reload due. While one is due, each change
/// puts it off to a quarter of a second from then, noise does not, and the
/// reload comes with the first noise after that time, the end of the wait or the
/// end of the events.
pub open spec fn reacts(
    before: WatcherView,
    signal: WatchSignal,
    manager_alive: bool,
    now: int,
    command: WatchCommand,
    after: WatcherView,
) -> bool {
    &&& after.file_name == before.file_name && after.auto_reload == before.auto_reload
    &&& before.last_change is None ==> {
        let stirs = signal == WatchSignal::Change && before.auto_reload && manager_alive;
        &&& command == WatchCommand::Exit <==> signal == WatchSignal::Closed || !manager_alive
        &&& stirs ==> command == WatchCommand::ReceiveFor(250_000_000) && after.last_change == Some(
            now,
        )
        &&& !stirs ==> after.last_change is None && command != WatchCommand::Reload && !(
        command is ReceiveFor)
    }
    &&& before.last_change matches Some(last) ==> {
        let left = 250_000_000 - (if now < last {
            0
        } else {
            now - last
        });
        &&& signal == WatchSignal::Change ==> command == WatchCommand::ReceiveFor(250_000_000)
            && after.last_change == Some(now)
        &&& signal == WatchSignal::Noise && left > 0 ==> command is ReceiveFor
            && command->ReceiveFor_0 == left && after.last_change == before.last_change
        &&& signal == WatchSignal::Noise && left <= 0 ==> command == WatchCommand::Reload
            && after.last_change is None
        &&& signal == WatchSignal::Closed || signal == WatchSignal::TimedOut ==> command
            == WatchCommand::Reload && after.last_change is None
    }
}

/// What a watcher does on a signal.
pub proof fn law_watcher_reacts(
    w: &mut ConfigWatcher,
    signal: WatchSignal,
    manager_alive: bool,
    now: u64,
    r: WatchCommand,
)
    requires
        call_ensures(ConfigWatcher::advance, (w, signal, manager_alive, now), r),
    ensures
        reacts(old(w)@, signal, manager_alive, now as int, r, final(w)@),
{
}

/// A step is to tell the input and to react to it.
pub proof fn law_step_tells_and_reacts(
    w: &mut ConfigWatcher,
    before: ConfigWatcher,
    input: WatchInput,
    manager_alive: bool,
    now: u64,
    signal: WatchSignal,
    r: WatchCommand,
)
    requires
        old(w)@ == before@,
        call_ensures(ConfigWatcher::classify, (&before, &input), signal),
        call_ensures(ConfigWatcher::step, (w, &input, manager_alive, now), r),
    ensures
        reacts(old(w)@, signal, manager_alive, now as int, r, final(w)@),
{
}

/// The commands and states that the laws on many events speak of are those of
/// every watcher.
pub proof fn law_model_reacts(
    watcher: WatcherView,
    signal: WatchSignal,
    manager_alive: bool,
    now: int,
)
    ensures
        reacts(
            watcher,
            signal,
            manager_alive,
            now,
            watcher.command(signal, manager_alive, now),
            watcher.after(signal, manager_alive, now),
        ),
{
}

/// A new watcher watches the name of the configuration file, and has no reload
/// due.
pub proof fn law_new_watcher(
    name: Option<String>,
    path: &str,
    auto_reload: bool,
    w: ConfigWatcher,
    told: Option<String>,
)
    ensures
        call_ensures(ConfigWatcher::named, (name, auto_reload), w) ==> {
            &&& w@.file_name is Some <==> name is Some
            &&& name is Some ==> w@.file_name->0 == name->0@
            &&& w@.auto_reload == auto_reload && w@.last_change is None
        },
        call_ensures(ConfigWatcher::new, (path, auto_reload), w) ==> {
            &&& w@.file_name == crate::path::final_component(path@)
            &&& w@.auto_reload == auto_reload && w@.last_change is None
        },
        call_ensures(ConfigWatcher::watched, (&w,), told) ==> {
            &&& told is Some <==> w@.file_name is Some
            &&& told is Some ==> told->0@ == w@.file_name->0
        },
{
}

} // verus!
