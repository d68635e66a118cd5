//! What holds of a monitor over many events.
use vstd::prelude::*;

#[allow(unused_imports)]
use crate::protocol::SessionStepView;
#[allow(unused_imports)]
use crate::watch::{WatchEventView, WatchPhase, WatchState, MAX_BATCH_LINES};

verus! {

/// The state after a run of events, and the batches delivered on the way.
pub open spec fn run(s: WatchState, events: Seq<WatchEventView>) -> (
    WatchState,
    Seq<Seq<Seq<char>>>,
)
    decreases events.len(),
{
    if events.len() == 0 {
        (s, Seq::empty())
    } else {
        let (mid, batches) = run(s, events.drop_last());
        let (end, batch) = crate::watch::step(mid, events.last());
        (
            end,
            if batch.len() == 0 {
                batches
            } else {
                batches.push(batch)
            },
        )
    }
}

/// The session steps that a run of events leads to, with a counter that starts
/// at `n`, and the counter at the end.
pub open spec fn transcript(
    n: u64,
    description: Seq<char>,
    s: WatchState,
    events: Seq<WatchEventView>,
) -> (u64, Seq<SessionStepView>)
    decreases events.len(),
{
    if events.len() == 0 {
        (n, Seq::empty())
    } else {
        let (m, steps) = transcript(n, description, s, events.drop_last());
        let batch = crate::watch::step(run(s, events.drop_last()).0, events.last()).1;
        (
            crate::delivery::seq_after(m, batch),
            steps + crate::delivery::delivery(m, description, batch),
        )
    }
}

/// A line was read.
pub open spec fn is_line(event: WatchEventView) -> bool {
    event matches WatchEventView::Read(Ok(Some(_)))
}

/// Every event is a line that was read.
pub open spec fn all_lines(events: Seq<WatchEventView>) -> bool {
    forall|i: int| 0 <= i < events.len() ==> is_line(#[trigger] events[i])
}

/// Every event is a line that was read or a quiet period: what happens between
/// the start of a command and the end of its output.
pub open spec fn all_output(events: Seq<WatchEventView>) -> bool {
    forall|i: int|
        0 <= i < events.len() ==> is_line(#[trigger] events[i]) || events[i] == WatchEventView::Quiet
}

/// The lines among the events that are not blank, in order.
pub open spec fn kept_lines(events: Seq<WatchEventView>) -> Seq<Seq<char>>
    decreases events.len(),
{
    if events.len() == 0 {
        Seq::empty()
    } else {
        let before = kept_lines(events.drop_last());
        match events.last() {
            WatchEventView::Read(Ok(Some(line))) => if crate::text::blank(line) {
                before
            } else {
                before.push(line)
            },
            _ => before,
        }
    }
}

/// The events of a monitor whose command starts, prints, ends its output and
/// exits.
pub open spec fn full_life(
    output: Seq<WatchEventView>,
    ending: Result<Option<Seq<char>>, Seq<char>>,
    outcome: Result<Seq<char>, Seq<char>>,
) -> Seq<WatchEventView> {
    seq![WatchEventView::Spawned(Ok(true))] + output + seq![
        WatchEventView::Read(ending),
        WatchEventView::Waited(outcome),
    ]
}

/// Whatever happens, a monitor holds back fewer lines than make a full batch,
/// none of them blank, and none once the output has ended.
pub proof fn run_keeps_state_ok(s: WatchState, events: Seq<WatchEventView>)
    requires
        crate::watch::state_ok(s),
    ensures
        crate::watch::state_ok(run(s, events).0),
    decreases events.len(),
{
    if events.len() > 0 {
        run_keeps_state_ok(s, events.drop_last());
    }
}

/// Every batch delivered holds at least one line and no more than the cap.
pub proof fn batches_are_bounded(s: WatchState, events: Seq<WatchEventView>, i: int)
    requires
        crate::watch::state_ok(s),
        0 <= i < run(s, events).1.len(),
    ensures
        1 <= run(s, events).1[i].len() <= MAX_BATCH_LINES,
    decreases events.len(),
{
    if events.len() > 0 {
        run_keeps_state_ok(s, events.drop_last());
        if i < run(s, events.drop_last()).1.len() {
            batches_are_bounded(s, events.drop_last(), i);
        }
    }
}

/// No line that is delivered is blank.
pub proof fn no_blank_line_is_delivered(s: WatchState, events: Seq<WatchEventView>, i: int, j: int)
    requires
        crate::watch::state_ok(s),
        0 <= i < run(s, events).1.len(),
        0 <= j < run(s, events).1[i].len(),
    ensures
        !crate::text::blank(run(s, events).1[i][j]),
    decreases events.len(),
{
    if events.len() > 0 {
        let init = events.drop_last();
        run_keeps_state_ok(s, init);
        if i < run(s, init).1.len() {
            no_blank_line_is_delivered(s, init, i, j);
        } else {
            reveal_strlit("failed to start: ");
            reveal_strlit("monitor exited (");
            reveal_strlit("monitor wait error: ");
            let line = run(s, events).1[i][j];
            if last_notice(events.last()) == Some(line) {
                assert(!crate::text::white_space(line[0]));
            }
        }
    }
}

/// A run can be cut in two anywhere.
pub proof fn run_splits(s: WatchState, a: Seq<WatchEventView>, b: Seq<WatchEventView>)
    ensures
        run(s, a + b).0 == run(run(s, a).0, b).0,
        run(s, a + b).1 == run(s, a).1 + run(run(s, a).0, b).1,
    decreases b.len(),
{
    if b.len() == 0 {
        assert(a + b == a);
        assert(run(s, a).1 + run(run(s, a).0, b).1 == run(s, a).1);
    } else {
        run_splits(s, a, b.drop_last());
        assert((a + b).drop_last() == a + b.drop_last());
        assert((a + b).last() == b.last());
    }
}

/// Nothing that a command prints is lost, repeated or reordered: the lines
/// delivered, followed by those still pending, are the lines read so far
/// without the blank ones.
pub proof fn output_is_conserved(s: WatchState, events: Seq<WatchEventView>)
    requires
        s.phase == WatchPhase::Reading,
        all_output(events),
    ensures
        run(s, events).0.phase == WatchPhase::Reading,
        run(s, events).1.flatten() + run(s, events).0.pending == s.pending + kept_lines(events),
    decreases events.len(),
{
    if events.len() == 0 {
        assert(Seq::<Seq<Seq<char>>>::empty().flatten() == Seq::<Seq<char>>::empty());
    } else {
        let init = events.drop_last();
        assert forall|i: int| 0 <= i < init.len() implies is_line(#[trigger] init[i]) || init[i]
            == WatchEventView::Quiet by {
            assert(init[i] == events[i]);
        }
        output_is_conserved(s, init);
        let (mid, batches) = run(s, init);
        let (end, batch) = crate::watch::step(mid, events.last());
        assert(is_line(events[events.len() - 1]) || events.last() == WatchEventView::Quiet);
        batches.lemma_flatten_push(batch);
        let kept = match events.last() {
            WatchEventView::Read(Ok(Some(line))) if !crate::text::blank(line) => seq![line],
            _ => Seq::empty(),
        };
        assert(batch + end.pending == mid.pending + kept);
        assert(kept_lines(events) == kept_lines(init) + kept);
        assert(batches.flatten() + (batch + end.pending) == (batches.flatten() + batch)
            + end.pending);
        assert(batches.flatten() + (mid.pending + kept) == (batches.flatten() + mid.pending)
            + kept);
        assert(s.pending + (kept_lines(init) + kept) == (s.pending + kept_lines(init)) + kept);
        if batch.len() == 0 {
            assert(batches.flatten() + batch == batches.flatten());
        }
        assert(run(s, events).1.flatten() + end.pending == s.pending + kept_lines(events));
    }
}

/// A monitor whose command starts and exits delivers every line that is not
/// blank, in order, and after that exactly one notice more, which says how the
/// command ended.
pub proof fn full_life_delivers_everything(
    output: Seq<WatchEventView>,
    ending: Result<Option<Seq<char>>, Seq<char>>,
    outcome: Result<Seq<char>, Seq<char>>,
)
    requires
        all_output(output),
        !is_line(WatchEventView::Read(ending)),
    ensures
        ({
            let (end, batches) = run(
                crate::watch::fresh(),
                full_life(output, ending, outcome),
            );
            &&& end == crate::watch::settled(WatchPhase::Finished)
            &&& batches.len() > 0
            &&& batches.last() == seq![crate::watch::exit_notice(outcome)]
            &&& batches.drop_last().flatten() == kept_lines(output)
        }),
{
    let start = seq![WatchEventView::Spawned(Ok(true))];
    let tail = seq![WatchEventView::Read(ending), WatchEventView::Waited(outcome)];
    let s0 = crate::watch::fresh();
    let s1 = crate::watch::settled(WatchPhase::Reading);
    run_one(s0, start[0]);
    assert(run(s0, start).0 == s1);
    output_is_conserved(s1, output);
    let (s2, batches) = run(s1, output);
    run_splits(s0, start, output);
    assert(run(s0, start + output).1 == batches);
    run_splits(s0, start + output, tail);
    assert(tail == seq![tail[0]] + seq![tail[1]]);
    run_splits(s2, seq![tail[0]], seq![tail[1]]);
    run_one(s2, tail[0]);
    run_one(crate::watch::settled(WatchPhase::Reaping), tail[1]);
    assert(s1.pending + kept_lines(output) == kept_lines(output));
    let all = run(s0, full_life(output, ending, outcome)).1;
    if s2.pending.len() == 0 {
        assert(all.drop_last() == batches);
        assert(batches.flatten() + s2.pending == batches.flatten());
    } else {
        assert(all.drop_last() == batches.push(s2.pending));
        batches.lemma_flatten_push(s2.pending);
    }
}

proof fn run_one(s: WatchState, event: WatchEventView)
    ensures
        run(s, seq![event]).0 == crate::watch::step(s, event).0,
        run(s, seq![event]).1 == if crate::watch::step(s, event).1.len() == 0 {
            Seq::<Seq<Seq<char>>>::empty()
        } else {
            seq![crate::watch::step(s, event).1]
        },
{
    let one = seq![event];
    assert(one.drop_last() == Seq::<WatchEventView>::empty());
    assert(run(s, one.drop_last()) == (s, Seq::<Seq<Seq<char>>>::empty()));
}

/// No event reports on the start of a command.
pub open spec fn unstarted(events: Seq<WatchEventView>) -> bool {
    forall|i: int| 0 <= i < events.len() ==> !(#[trigger] events[i] is Spawned)
}

/// Until the start of its command is reported, a monitor stays as it was when
/// the call was answered and delivers nothing. With a command that is started
/// only once the answer has been given, the answer comes before every notice.
pub proof fn nothing_before_the_start(events: Seq<WatchEventView>)
    requires
        unstarted(events),
    ensures
        run(crate::watch::fresh(), events) == (
            crate::watch::fresh(),
            Seq::<Seq<Seq<char>>>::empty(),
        ),
    decreases events.len(),
{
    if events.len() > 0 {
        let init = events.drop_last();
        assert forall|i: int| 0 <= i < init.len() implies !(#[trigger] init[i] is Spawned) by {
            assert(init[i] == events[i]);
        }
        nothing_before_the_start(init);
        assert(!(events[events.len() - 1] is Spawned));
    }
}

/// Until the start of its command is reported, a monitor asks nothing of the
/// session and takes no number.
pub proof fn session_is_untouched_before_the_start(
    n: u64,
    description: Seq<char>,
    events: Seq<WatchEventView>,
)
    requires
        unstarted(events),
    ensures
        transcript(n, description, crate::watch::fresh(), events) == (
            n,
            Seq::<SessionStepView>::empty(),
        ),
{
    nothing_before_the_start(events);
    transcript_is_one_delivery_per_batch(n, description, crate::watch::fresh(), events);
}

/// A command that cannot be started is reported by one notice, and that is
/// all.
pub proof fn failed_start_is_reported(error: Seq<char>)
    ensures
        run(crate::watch::fresh(), seq![WatchEventView::Spawned(Err(error))]) == (
            crate::watch::settled(WatchPhase::Finished),
            seq![seq![crate::watch::start_failure_notice(error)]],
        ),
{
    run_one(crate::watch::fresh(), WatchEventView::Spawned(Err(error)));
}

/// A command without a readable output is reported by its last notice alone.
pub proof fn silent_life_is_reported(outcome: Result<Seq<char>, Seq<char>>)
    ensures
        run(
            crate::watch::fresh(),
            seq![WatchEventView::Spawned(Ok(false)), WatchEventView::Waited(outcome)],
        ) == (
            crate::watch::settled(WatchPhase::Finished),
            seq![seq![crate::watch::exit_notice(outcome)]],
        ),
{
    let events = seq![WatchEventView::Spawned(Ok(false)), WatchEventView::Waited(outcome)];
    assert(events == seq![events[0]] + seq![events[1]]);
    run_splits(crate::watch::fresh(), seq![events[0]], seq![events[1]]);
    run_one(crate::watch::fresh(), events[0]);
    run_one(crate::watch::settled(WatchPhase::Reaping), events[1]);
}

/// A monitor that has finished delivers nothing more.
pub proof fn finished_is_final(s: WatchState, events: Seq<WatchEventView>)
    requires
        s.phase == WatchPhase::Finished,
    ensures
        run(s, events) == (s, Seq::<Seq<Seq<char>>>::empty()),
    decreases events.len(),
{
    if events.len() > 0 {
        finished_is_final(s, events.drop_last());
    }
}

/// The notice with which an event ends a monitor.
pub open spec fn last_notice(event: WatchEventView) -> Option<Seq<char>> {
    match event {
        WatchEventView::Spawned(Err(error)) => Some(crate::watch::start_failure_notice(error)),
        WatchEventView::Waited(outcome) => Some(crate::watch::exit_notice(outcome)),
        _ => None,
    }
}

/// The event at `k` finishes a run, which delivers one last notice for it and
/// nothing after it.
pub open spec fn finishes_at(s: WatchState, events: Seq<WatchEventView>, k: int) -> bool {
    &&& 0 <= k < events.len()
    &&& run(s, events.take(k)).0.phase != WatchPhase::Finished
    &&& last_notice(events[k]) matches Some(notice)
    &&& run(s, events).1 == run(s, events.take(k)).1.push(seq![notice])
}

/// However a monitor comes to its end, its last delivery is the notice of that
/// end, and there is exactly one such notice.
pub proof fn every_end_is_reported_once(s: WatchState, events: Seq<WatchEventView>)
    requires
        s.phase != WatchPhase::Finished,
        run(s, events).0.phase == WatchPhase::Finished,
    ensures
        exists|k: int| finishes_at(s, events, k),
    decreases events.len(),
{
    let init = events.drop_last();
    let (mid, batches) = run(s, init);
    if mid.phase == WatchPhase::Finished {
        every_end_is_reported_once(s, init);
        let k = choose|k: int| finishes_at(s, init, k);
        assert(init.take(k) == events.take(k));
        assert(finishes_at(s, events, k));
    } else {
        assert(events.take(events.len() - 1) == init);
        assert(finishes_at(s, events, events.len() - 1));
    }
}

proof fn times_cap(i: int)
    ensures
        MAX_BATCH_LINES as int * i == 50 * i,
{
    let cap = MAX_BATCH_LINES as int;
    assert(cap * i == 50 * i) by (nonlinear_arith)
        requires
            cap == 50,
    ;
}

/// Lines that keep coming are cut into batches of exactly the cap, and only
/// the rest stays pending.
pub proof fn firehose_is_chunked(events: Seq<WatchEventView>)
    requires
        all_lines(events),
    ensures
        ({
            let (end, batches) = run(crate::watch::settled(WatchPhase::Reading), events);
            let lines = kept_lines(events);
            let cap = MAX_BATCH_LINES as int;
            &&& end.phase == WatchPhase::Reading
            &&& batches.len() == lines.len() as int / cap
            &&& end.pending == lines.skip(cap * batches.len())
            &&& forall|i: int|
                0 <= i < batches.len() ==> #[trigger] batches[i] == lines.subrange(
                    cap * i,
                    cap * i + cap,
                )
        }),
    decreases events.len(),
{
    let s = crate::watch::settled(WatchPhase::Reading);
    if events.len() == 0 {
        assert(kept_lines(events).skip(0) == Seq::<Seq<char>>::empty());
    } else {
        let init = events.drop_last();
        assert forall|i: int| 0 <= i < init.len() implies is_line(#[trigger] init[i]) by {
            assert(init[i] == events[i]);
        }
        firehose_is_chunked(init);
        assert(is_line(events[events.len() - 1]));
        let (mid, before) = run(s, init);
        let (end, batches) = run(s, events);
        let old_lines = kept_lines(init);
        let lines = kept_lines(events);
        let cap = MAX_BATCH_LINES as int;
        let done = before.len() as int;
        times_cap(done);
        times_cap(done + 1);
        assert(mid.pending.len() < cap);
        if lines != old_lines {
            let line = lines.last();
            assert(lines == old_lines.push(line));
            assert(mid.pending.push(line) == lines.skip(cap * before.len()));
            assert forall|i: int| 0 <= i < before.len() implies #[trigger] before[i]
                == lines.subrange(cap * i, cap * i + cap) by {
                times_cap(i);
                assert(old_lines.subrange(cap * i, cap * i + cap) == lines.subrange(
                    cap * i,
                    cap * i + cap,
                ));
            }
            if mid.pending.len() + 1 == cap {
                assert(batches == before.push(mid.pending.push(line)));
                assert(lines.len() == cap * before.len() + cap);
                assert(mid.pending.push(line) == lines.subrange(
                    cap * before.len(),
                    cap * before.len() + cap,
                ));
                assert(end.pending == lines.skip(cap * batches.len()));
            } else {
                assert(batches == before);
            }
        }
    }
}

/// One batch of the given lines, or none if there are no lines.
pub open spec fn one_batch(lines: Seq<Seq<char>>) -> Seq<Seq<Seq<char>>> {
    if lines.len() == 0 {
        Seq::empty()
    } else {
        seq![lines]
    }
}

proof fn flushed_burst(events: Seq<WatchEventView>, flush: WatchEventView)
    requires
        all_lines(events),
        kept_lines(events).len() <= MAX_BATCH_LINES,
        flush == WatchEventView::Quiet || (flush is Read && !is_line(flush)),
    ensures
        run(crate::watch::settled(WatchPhase::Reading), events.push(flush)) == (
            crate::watch::settled(
                if flush == WatchEventView::Quiet {
                    WatchPhase::Reading
                } else {
                    WatchPhase::Reaping
                },
            ),
            one_batch(kept_lines(events)),
        ),
{
    firehose_is_chunked(events);
    let s = crate::watch::settled(WatchPhase::Reading);
    let lines = kept_lines(events);
    let (mid, batches) = run(s, events);
    let all = events.push(flush);
    assert(all.drop_last() == events);
    if lines.len() == MAX_BATCH_LINES {
        times_cap(0);
        times_cap(1);
        assert(batches.len() == 1);
        assert(batches[0] == lines.subrange(0, 50));
        assert(batches[0] == lines);
        assert(mid.pending.len() == 0);
        assert(batches == one_batch(lines));
    } else {
        times_cap(0);
        assert(mid.pending == lines);
        assert(batches == Seq::<Seq<Seq<char>>>::empty());
    }
    assert(run(s, all).1 == one_batch(lines));
}

/// A burst of no more lines than the cap, followed by a quiet period, is one
/// notice, or none if all of it is blank.
pub proof fn burst_is_one_notice(events: Seq<WatchEventView>)
    requires
        all_lines(events),
        kept_lines(events).len() <= MAX_BATCH_LINES,
    ensures
        run(
            crate::watch::settled(WatchPhase::Reading),
            events.push(WatchEventView::Quiet),
        ) == (crate::watch::settled(WatchPhase::Reading), one_batch(kept_lines(events))),
{
    flushed_burst(events, WatchEventView::Quiet);
}

/// A burst of no more lines than the cap, cut short by the end of the output,
/// is one notice, or none if all of it is blank.
pub proof fn last_burst_is_one_notice(
    events: Seq<WatchEventView>,
    ending: Result<Option<Seq<char>>, Seq<char>>,
)
    requires
        all_lines(events),
        kept_lines(events).len() <= MAX_BATCH_LINES,
        !is_line(WatchEventView::Read(ending)),
    ensures
        run(
            crate::watch::settled(WatchPhase::Reading),
            events.push(WatchEventView::Read(ending)),
        ) == (crate::watch::settled(WatchPhase::Reaping), one_batch(kept_lines(events))),
{
    flushed_burst(events, WatchEventView::Read(ending));
}

/// Each batch costs the session one visible notice, one message and one wake,
/// under consecutive numbers of the counter.
pub proof fn transcript_is_one_delivery_per_batch(
    n: u64,
    description: Seq<char>,
    s: WatchState,
    events: Seq<WatchEventView>,
)
    ensures
        ({
            let batches = run(s, events).1;
            let (m, steps) = transcript(n, description, s, events);
            &&& m == crate::ids::drawn(n, batches.len())
            &&& steps.len() == 3 * batches.len()
            &&& forall|i: int|
                0 <= i < batches.len() ==> #[trigger] steps.subrange(3 * i, 3 * i + 3)
                    == crate::delivery::delivery(
                    crate::ids::drawn(n, i as nat),
                    description,
                    batches[i],
                )
        }),
    decreases events.len(),
{
    if events.len() > 0 {
        let init = events.drop_last();
        transcript_is_one_delivery_per_batch(n, description, s, init);
        let (mid, before) = run(s, init);
        let batch = crate::watch::step(mid, events.last()).1;
        let (m0, steps0) = transcript(n, description, s, init);
        let (m, steps) = transcript(n, description, s, events);
        let batches = run(s, events).1;
        if batch.len() == 0 {
            assert(steps == steps0);
        } else {
            assert forall|i: int| 0 <= i < batches.len() implies #[trigger] steps.subrange(
                3 * i,
                3 * i + 3,
            ) == crate::delivery::delivery(
                crate::ids::drawn(n, i as nat),
                description,
                batches[i],
            ) by {
                if i < before.len() {
                    assert(steps.subrange(3 * i, 3 * i + 3) == steps0.subrange(3 * i, 3 * i + 3));
                } else {
                    assert(steps.subrange(3 * i, 3 * i + 3) == crate::delivery::delivery(
                        m0,
                        description,
                        batch,
                    ));
                }
            }
        }
    }
}

/// No two notices of a run bear the same name, as long as there are no more
/// than two to the sixty-fourth of them.
pub proof fn notices_have_distinct_names(
    n: u64,
    description: Seq<char>,
    s: WatchState,
    events: Seq<WatchEventView>,
    i: int,
    j: int,
)
    requires
        0 <= i < j < run(s, events).1.len() <= 0x1_0000_0000_0000_0000,
    ensures
        ({
            let steps = transcript(n, description, s, events).1;
            &&& steps[3 * i] matches SessionStepView::SendEvent { id: first, .. }
            &&& steps[3 * j] matches SessionStepView::SendEvent { id: second, .. }
            &&& first != second
        }),
{
    transcript_is_one_delivery_per_batch(n, description, s, events);
    batch_is_not_empty(s, events, i);
    batch_is_not_empty(s, events, j);
    crate::ids::drawn_ids_are_unique(n, i as nat, j as nat);
    let steps = transcript(n, description, s, events).1;
    assert(steps[3 * i] == steps.subrange(3 * i, 3 * i + 3)[0]);
    assert(steps[3 * j] == steps.subrange(3 * j, 3 * j + 3)[0]);
}

proof fn batch_is_not_empty(s: WatchState, events: Seq<WatchEventView>, i: int)
    requires
        0 <= i < run(s, events).1.len(),
    ensures
        run(s, events).1[i].len() > 0,
    decreases events.len(),
{
    if events.len() > 0 && i < run(s, events.drop_last()).1.len() {
        batch_is_not_empty(s, events.drop_last(), i);
    }
}

/// What draws on the counter that all monitors share.
pub enum CounterUse {
    /// A call is accepted, and its monitor numbered.
    Accept,
    /// A batch of some monitor is delivered.
    Deliver { description: Seq<char>, lines: Seq<Seq<char>> },
}

/// Whether a use takes a number: all do but the delivery of an empty batch.
pub open spec fn takes_number(u: CounterUse) -> bool {
    u matches CounterUse::Deliver { lines, .. } ==> lines.len() > 0
}

/// The shared counter after a history of uses, by any number of monitors in
/// any order.
pub open spec fn counter_after(start: u64, uses: Seq<CounterUse>) -> u64
    decreases uses.len(),
{
    if uses.len() == 0 {
        start
    } else {
        let before = counter_after(start, uses.drop_last());
        match uses.last() {
            CounterUse::Accept => crate::ids::successor(before),
            CounterUse::Deliver { lines, .. } => crate::delivery::seq_after(before, lines),
        }
    }
}

/// The number that the use at `k` finds in the counter.
pub open spec fn number_at(start: u64, uses: Seq<CounterUse>, k: int) -> u64 {
    counter_after(start, uses.take(k))
}

/// How many uses of a history take a number.
spec fn numbers_taken(uses: Seq<CounterUse>) -> nat
    decreases uses.len(),
{
    if uses.len() == 0 {
        0
    } else {
        numbers_taken(uses.drop_last()) + if takes_number(uses.last()) {
            1nat
        } else {
            0nat
        }
    }
}

proof fn counter_counts(start: u64, uses: Seq<CounterUse>)
    ensures
        counter_after(start, uses) == crate::ids::drawn(start, numbers_taken(uses)),
        numbers_taken(uses) <= uses.len(),
    decreases uses.len(),
{
    if uses.len() > 0 {
        counter_counts(start, uses.drop_last());
    }
}

proof fn numbers_taken_grows(uses: Seq<CounterUse>, i: int, j: int)
    requires
        0 <= i < j <= uses.len(),
        takes_number(uses[i]),
    ensures
        numbers_taken(uses.take(i)) < numbers_taken(uses.take(j)),
    decreases j,
{
    assert(uses.take(j).drop_last() == uses.take(j - 1));
    if i < j - 1 {
        numbers_taken_grows(uses, i, j - 1);
    }
}

/// Each monitor, and each notice of any monitor, has a number and a name of its
/// own, however the monitors take turns at the counter they share, as long as
/// there are no more than two to the sixty-fourth uses of it.
pub proof fn numbers_are_unique_across_monitors(
    start: u64,
    uses: Seq<CounterUse>,
    i: int,
    j: int,
)
    requires
        0 <= i < j < uses.len() <= 0x1_0000_0000_0000_0000,
        takes_number(uses[i]),
        takes_number(uses[j]),
    ensures
        number_at(start, uses, i) != number_at(start, uses, j),
        crate::ids::sub_id(number_at(start, uses, i)) != crate::ids::sub_id(
            number_at(start, uses, j),
        ),
        uses[i] matches CounterUse::Deliver { description: da, lines: a } ==> uses[j] matches
            CounterUse::Deliver { description: db, lines: b } ==> {
            let first = crate::delivery::delivery(number_at(start, uses, i), da, a);
            let second = crate::delivery::delivery(number_at(start, uses, j), db, b);
            &&& crate::delivery::step_name(first[0]) != crate::delivery::step_name(second[0])
            &&& crate::delivery::step_name(first[2]) != crate::delivery::step_name(second[2])
        },
{
    counter_counts(start, uses.take(i));
    counter_counts(start, uses.take(j));
    numbers_taken_grows(uses, i, j);
    crate::ids::drawn_ids_are_unique(
        start,
        numbers_taken(uses.take(i)),
        numbers_taken(uses.take(j)),
    );
}

} // verus!
