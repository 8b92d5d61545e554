//! Batch-level laws of the notification processor, stated over the model
//! that `handle_servo_events` is specified with.

use vstd::prelude::*;
use crate::browser::{
    BatchOutcome, BrowserId, EmbedderEvent, EmbedderMsg, PipelineId, lemma_run_batch_dead,
    run_batch, step,
};

verus! {

/// The identities announced by the context-creation notifications of a
/// batch, in the order they arrive.
pub open spec fn creation_ids(events: Seq<(Option<BrowserId>, EmbedderMsg)>) -> Seq<BrowserId>
    decreases events.len(),
{
    if events.len() == 0 {
        Seq::empty()
    } else {
        let rest = creation_ids(events.drop_first());
        if events[0].1 is BrowserCreated {
            seq![events[0].1->BrowserCreated_0] + rest
        } else {
            rest
        }
    }
}

/// Pushing a command onto a queue keeps every command already in it.
proof fn lemma_push_keeps_contains(q: Seq<EmbedderEvent>, x: EmbedderEvent, c: EmbedderEvent)
    requires
        q.contains(c),
    ensures
        q.push(x).contains(c),
{
    let i = choose|i: int| 0 <= i < q.len() && q[i] == c;
    assert(q.push(x)[i] == c);
}

/// Law: a batch with no context-creation notification leaves the identity
/// as it was and cannot die; every queued command stays queued; and while
/// no identity is held nothing is enqueued at all — premature
/// navigation-permission requests are silently dropped.
pub proof fn lemma_no_creation(o: BatchOutcome, events: Seq<(Option<BrowserId>, EmbedderMsg)>)
    requires
        creation_ids(events).len() == 0,
    ensures
        run_batch(o, events).manager.browser_id == o.manager.browser_id,
        run_batch(o, events).ok == o.ok,
        forall|c: EmbedderEvent|
            o.manager.queue.contains(c) ==> #[trigger] run_batch(
                o,
                events,
            ).manager.queue.contains(c),
        o.manager.browser_id is None ==> run_batch(o, events).manager.queue
            == o.manager.queue,
    decreases events.len(),
{
    if events.len() > 0 {
        let o1 = step(o, events[0].1);
        assert(!(events[0].1 is BrowserCreated));
        lemma_no_creation(o1, events.drop_first());
        assert forall|c: EmbedderEvent|
            o.manager.queue.contains(c) implies #[trigger] run_batch(
            o,
            events,
        ).manager.queue.contains(c) by {
            if o1.manager.queue != o.manager.queue {
                lemma_push_keeps_contains(
                    o.manager.queue,
                    o1.manager.queue.last(),
                    c,
                );
            }
        }
    }
}

/// Law: a batch with exactly one context-creation notification, processed
/// while no identity is held yet, completes, assigns exactly the announced
/// identity, and leaves a select-context command for it in the queue.
pub proof fn lemma_single_creation(o: BatchOutcome, events: Seq<(Option<BrowserId>, EmbedderMsg)>)
    requires
        o.ok,
        o.manager.browser_id is None,
        creation_ids(events).len() == 1,
    ensures
        run_batch(o, events).ok,
        run_batch(o, events).manager.browser_id == Some(creation_ids(events)[0]),
        run_batch(o, events).manager.queue.contains(
            EmbedderEvent::SelectBrowser(creation_ids(events)[0]),
        ),
    decreases events.len(),
{
    let rest = events.drop_first();
    let o1 = step(o, events[0].1);
    if events[0].1 is BrowserCreated {
        let b = events[0].1->BrowserCreated_0;
        assert(o1.manager.queue[o.manager.queue.len() as int]
            == EmbedderEvent::SelectBrowser(b));
        assert(o1.manager.queue.contains(EmbedderEvent::SelectBrowser(b)));
        lemma_no_creation(o1, rest);
    } else {
        lemma_single_creation(o1, rest);
    }
}

/// Law: while an identity is already held, a batch announcing at least one
/// more context creation terminates fatally.
pub proof fn lemma_creation_with_identity_fatal(
    o: BatchOutcome,
    events: Seq<(Option<BrowserId>, EmbedderMsg)>,
)
    requires
        o.manager.browser_id is Some,
        creation_ids(events).len() >= 1,
    ensures
        !run_batch(o, events).ok,
    decreases events.len(),
{
    if !o.ok {
        lemma_run_batch_dead(o, events);
    } else {
        let o1 = step(o, events[0].1);
        if events[0].1 is BrowserCreated {
            lemma_run_batch_dead(o1, events.drop_first());
        } else {
            lemma_creation_with_identity_fatal(o1, events.drop_first());
        }
    }
}

/// Law: a batch announcing two or more context creations terminates
/// fatally, whatever the starting state.
pub proof fn lemma_multiple_creations_fatal(
    o: BatchOutcome,
    events: Seq<(Option<BrowserId>, EmbedderMsg)>,
)
    requires
        creation_ids(events).len() >= 2,
    ensures
        !run_batch(o, events).ok,
    decreases events.len(),
{
    if !o.ok {
        lemma_run_batch_dead(o, events);
    } else {
        let o1 = step(o, events[0].1);
        if events[0].1 is BrowserCreated {
            if o.manager.browser_id is Some {
                lemma_run_batch_dead(o1, events.drop_first());
            } else {
                lemma_creation_with_identity_fatal(o1, events.drop_first());
            }
        } else {
            lemma_multiple_creations_fatal(o1, events.drop_first());
        }
    }
}

/// The title carried by the last title-change notification of a batch, if
/// the batch has one.
pub open spec fn last_title(events: Seq<(Option<BrowserId>, EmbedderMsg)>) -> Option<
    Option<Seq<char>>,
>
    decreases events.len(),
{
    if events.len() == 0 {
        None
    } else {
        let rest = last_title(events.drop_first());
        if rest is Some {
            rest
        } else if events[0].1 is ChangePageTitle {
            Some(events[0].1->ChangePageTitle_0.deep_view())
        } else {
            None
        }
    }
}

/// The delta's title field after a batch: the last title written during
/// the batch, or the prior value where the batch writes none.
pub open spec fn title_outcome(
    prior: Option<Seq<char>>,
    events: Seq<(Option<BrowserId>, EmbedderMsg)>,
) -> Option<Seq<char>> {
    match last_title(events) {
        Some(t) => t,
        None => prior,
    }
}

/// Law: within one batch that completes, the last write to the title field
/// wins: repeated title changes leave only the last title in the delta,
/// and a batch with no title change leaves the field as it began.
pub proof fn lemma_title_last_write_wins(
    o: BatchOutcome,
    events: Seq<(Option<BrowserId>, EmbedderMsg)>,
)
    requires
        run_batch(o, events).ok,
    ensures
        run_batch(o, events).delta.title == title_outcome(o.delta.title, events),
    decreases events.len(),
{
    if events.len() > 0 {
        let o1 = step(o, events[0].1);
        if !o1.ok {
            lemma_run_batch_dead(o1, events.drop_first());
        }
        lemma_title_last_write_wins(o1, events.drop_first());
    }
}

/// True of the notifications that write a delta field: a title change, a
/// favicon update, a load start or completion, and ready-to-present.
pub open spec fn writes_delta(msg: EmbedderMsg) -> bool {
    ||| msg is ChangePageTitle
    ||| msg is NewFavicon
    ||| msg is LoadStart
    ||| msg is LoadComplete
    ||| msg is ReadyToPresent
}

/// Law: a batch with no delta-writing notification leaves the delta
/// exactly as it began — so a batch of only navigation requests, context
/// creations and unrecognized tags yields the all-unset delta — whatever
/// the identity or queue state, and whether or not the batch dies.
pub proof fn lemma_quiet_batch_keeps_delta(
    o: BatchOutcome,
    events: Seq<(Option<BrowserId>, EmbedderMsg)>,
)
    requires
        forall|i: int| 0 <= i < events.len() ==> !(#[trigger] writes_delta(events[i].1)),
    ensures
        run_batch(o, events).delta == o.delta,
    decreases events.len(),
{
    if events.len() > 0 {
        assert(!writes_delta(events[0].1));
        assert forall|i: int|
            0 <= i < events.drop_first().len() implies !(#[trigger] writes_delta(
            events.drop_first()[i].1,
        )) by {
            assert(events.drop_first()[i] == events[i + 1]);
            assert(!writes_delta(events[i + 1].1));
        }
        lemma_quiet_batch_keeps_delta(step(o, events[0].1), events.drop_first());
    }
}

/// Law: a navigation-permission request arriving after the context
/// creation yields exactly the select-context command followed by one
/// navigation grant for that pipeline, in that order, and writes no delta
/// field.
pub proof fn lemma_navigation_granted_after_creation(
    o: BatchOutcome,
    from_a: Option<BrowserId>,
    from_b: Option<BrowserId>,
    b: BrowserId,
    p: PipelineId,
    url: String,
)
    requires
        o.ok,
        o.manager.browser_id is None,
    ensures
        ({
            let events = seq![
                (from_a, EmbedderMsg::BrowserCreated(b)),
                (from_b, EmbedderMsg::AllowNavigationRequest(p, url)),
            ];
            let res = run_batch(o, events);
            &&& res.ok
            &&& res.manager.browser_id == Some(b)
            &&& res.manager.queue == o.manager.queue + seq![
                EmbedderEvent::SelectBrowser(b),
                EmbedderEvent::AllowNavigationResponse(p, true),
            ]
            &&& res.delta == o.delta
        }),
{
    let events = seq![
        (from_a, EmbedderMsg::BrowserCreated(b)),
        (from_b, EmbedderMsg::AllowNavigationRequest(p, url)),
    ];
    let o1 = step(o, events[0].1);
    let o2 = step(o1, events.drop_first()[0].1);
    assert(run_batch(o, events) == run_batch(o1, events.drop_first()));
    assert(run_batch(o1, events.drop_first()) == run_batch(
        o2,
        events.drop_first().drop_first(),
    ));
    assert(events.drop_first().drop_first().len() == 0);
    assert(o2.manager.queue =~= o.manager.queue + seq![
        EmbedderEvent::SelectBrowser(b),
        EmbedderEvent::AllowNavigationResponse(p, true),
    ]);
}

} // verus!
