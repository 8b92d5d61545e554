//! The browsing-context manager: identity assignment, notification
//! classification, and the FIFO queue of outbound engine commands.

use vstd::prelude::*;

verus! {

/// An engine-assigned token identifying one top-level browsing context.
#[derive(Clone, Copy, PartialEq, Eq, Structural, Debug)]
pub struct BrowserId(pub u64);

/// An engine-assigned token identifying one pipeline (a document in flight).
#[derive(Clone, Copy, PartialEq, Eq, Structural, Debug)]
pub struct PipelineId(pub u64);

/// A notification from the rendering engine.  The set of tags an engine can
/// emit is open-ended; tags this manager does not act on arrive as `Other`.
pub enum EmbedderMsg {
    /// The engine asks whether the given pipeline may navigate to the URL.
    AllowNavigationRequest(PipelineId, String),
    /// The engine created a browsing context with the given identity.
    BrowserCreated(BrowserId),
    /// The page title changed; a page may also report having no title.
    ChangePageTitle(Option<String>),
    /// The page's favicon is now found at the given URL.
    NewFavicon(String),
    /// A page load began.
    LoadStart,
    /// A page load finished.
    LoadComplete,
    /// A new frame is ready and must be presented by the host.
    ReadyToPresent,
    /// Any other engine notification, carried as a descriptive tag so the
    /// host can trace it.
    Other(String),
}

/// A command queued for injection into the engine's event stream.
#[derive(Clone, Copy, PartialEq, Eq, Structural, Debug)]
pub enum EmbedderEvent {
    /// Answer a navigation-permission request for the given pipeline.
    AllowNavigationResponse(PipelineId, bool),
    /// Make the given browsing context the selected one.
    SelectBrowser(BrowserId),
}

/// The state delta handed to the host after one notification batch.  A field
/// is `None` unless the batch produced a new value for it; the host retains
/// last-known values across deltas.
pub struct QServoBrowserResponse {
    pub favicon_url: Option<String>,
    pub present: Option<bool>,
    pub title: Option<String>,
    pub loading: Option<bool>,
}

/// The mathematical value of a `QServoBrowserResponse`: the same four
/// optional fields, with strings abstracted to character sequences.
#[verifier::ext_equal]
pub struct ResponseModel {
    pub favicon_url: Option<Seq<char>>,
    pub present: Option<bool>,
    pub title: Option<Seq<char>>,
    pub loading: Option<bool>,
}

impl View for QServoBrowserResponse {
    type V = ResponseModel;

    open spec fn view(&self) -> ResponseModel {
        ResponseModel {
            favicon_url: self.favicon_url.deep_view(),
            present: self.present,
            title: self.title.deep_view(),
            loading: self.loading,
        }
    }
}

/// The delta at the start of every batch: all four fields unset.
pub open spec fn unset_delta() -> ResponseModel {
    ResponseModel { favicon_url: None, present: None, title: None, loading: None }
}

/// Raised by a notification batch that announces a second browsing context:
/// the manager supports exactly one, so this is an unrecoverable usage
/// error, to be propagated to the host's top-level loop.
#[derive(Clone, Copy, PartialEq, Eq, Structural, Debug)]
pub struct MultipleContextsError;

/// The single-context manager.  It holds at most one browsing-context
/// identity and the FIFO queue of commands bound for the engine.
pub struct QServoBrowser {
    browser_id: Option<BrowserId>,
    event_queue: Vec<EmbedderEvent>,
}

/// The mathematical value of a `QServoBrowser`: the optional identity and
/// the queued commands in FIFO order.
#[verifier::ext_equal]
pub struct BrowserModel {
    pub browser_id: Option<BrowserId>,
    pub queue: Seq<EmbedderEvent>,
}

impl View for QServoBrowser {
    type V = BrowserModel;

    closed spec fn view(&self) -> BrowserModel {
        BrowserModel { browser_id: self.browser_id, queue: self.event_queue@ }
    }
}

impl Default for QServoBrowser {
    /// A fresh manager: no identity assigned, no commands queued.
    fn default() -> (r: Self)
        ensures
            r@.browser_id is None,
            r@.queue == Seq::<EmbedderEvent>::empty(),
    {
        QServoBrowser { browser_id: None, event_queue: Vec::new() }
    }
}

/// The value threaded through one notification batch: the manager's state,
/// the delta accumulated so far, and whether processing is still alive.
/// Once `ok` is false (a second context creation was seen) the outcome is
/// frozen: the batch terminated fatally at that point.
#[verifier::ext_equal]
pub struct BatchOutcome {
    pub manager: BrowserModel,
    pub delta: ResponseModel,
    pub ok: bool,
}

/// The effect of one notification on a batch in flight.  A dead outcome
/// absorbs every further notification; a context creation while an identity
/// is already held kills the outcome; otherwise the one effect of the
/// notification's tag is applied, the last write to each delta field
/// winning within the batch.
pub open spec fn step(o: BatchOutcome, msg: EmbedderMsg) -> BatchOutcome {
    if !o.ok {
        o
    } else {
        match msg {
            EmbedderMsg::AllowNavigationRequest(pipeline, _url) => {
                if o.manager.browser_id is Some {
                    BatchOutcome {
                        manager: BrowserModel {
                            queue: o.manager.queue.push(
                                EmbedderEvent::AllowNavigationResponse(pipeline, true),
                            ),
                            ..o.manager
                        },
                        ..o
                    }
                } else {
                    o
                }
            },
            EmbedderMsg::BrowserCreated(new_id) => {
                if o.manager.browser_id is Some {
                    BatchOutcome { ok: false, ..o }
                } else {
                    BatchOutcome {
                        manager: BrowserModel {
                            browser_id: Some(new_id),
                            queue: o.manager.queue.push(EmbedderEvent::SelectBrowser(new_id)),
                        },
                        ..o
                    }
                }
            },
            EmbedderMsg::ChangePageTitle(title) => BatchOutcome {
                delta: ResponseModel { title: title.deep_view(), ..o.delta },
                ..o
            },
            EmbedderMsg::NewFavicon(url) => BatchOutcome {
                delta: ResponseModel { favicon_url: Some(url@), ..o.delta },
                ..o
            },
            EmbedderMsg::LoadStart => BatchOutcome {
                delta: ResponseModel { loading: Some(true), ..o.delta },
                ..o
            },
            EmbedderMsg::LoadComplete => BatchOutcome {
                delta: ResponseModel { loading: Some(false), ..o.delta },
                ..o
            },
            EmbedderMsg::ReadyToPresent => BatchOutcome {
                delta: ResponseModel { present: Some(true), ..o.delta },
                ..o
            },
            EmbedderMsg::Other(_tag) => o,
        }
    }
}

/// One left-to-right pass over a batch of (optional identity, notification)
/// pairs; the identity component is ignored, since only one context is
/// supported.
pub open spec fn run_batch(
    o: BatchOutcome,
    events: Seq<(Option<BrowserId>, EmbedderMsg)>,
) -> BatchOutcome
    decreases events.len(),
{
    if events.len() == 0 {
        o
    } else {
        run_batch(step(o, events[0].1), events.drop_first())
    }
}

/// The outcome of processing `events` against a manager in state `m`,
/// starting from the all-unset delta.
pub open spec fn batch_outcome(
    m: BrowserModel,
    events: Seq<(Option<BrowserId>, EmbedderMsg)>,
) -> BatchOutcome {
    run_batch(BatchOutcome { manager: m, delta: unset_delta(), ok: true }, events)
}

impl QServoBrowser {
    /// Returns the current browsing-context identity, if one has been
    /// assigned.  No side effects.
    pub fn browser_id(&self) -> (r: Option<BrowserId>)
        ensures
            r == self@.browser_id,
    {
        self.browser_id
    }

    /// Atomically removes and returns the entire command queue in FIFO
    /// order, leaving it empty.  A second drain with no intervening enqueue
    /// returns an empty sequence.
    pub fn get_events(&mut self) -> (r: Vec<EmbedderEvent>)
        ensures
            r@ == old(self)@.queue,
            final(self)@.queue == Seq::<EmbedderEvent>::empty(),
            final(self)@.browser_id == old(self)@.browser_id,
    {
        let mut drained: Vec<EmbedderEvent> = Vec::new();
        core::mem::swap(&mut drained, &mut self.event_queue);
        drained
    }

    /// Appends one command to the tail of the queue.  Always succeeds; the
    /// command's content is not validated.
    pub fn push_event(&mut self, event: EmbedderEvent)
        ensures
            final(self)@.queue == old(self)@.queue.push(event),
            final(self)@.browser_id == old(self)@.browser_id,
    {
        self.event_queue.push(event);
    }

    /// Processes one notification batch left to right, updating the
    /// identity and the command queue, and returns the accumulated state
    /// delta.  A context creation while an identity is already held ends
    /// the batch right there with `MultipleContextsError` — an
    /// unrecoverable usage error — keeping the state changes the earlier
    /// notifications of the batch had made.
    pub fn handle_servo_events(
        &mut self,
        events: Vec<(Option<BrowserId>, EmbedderMsg)>,
    ) -> (r: Result<QServoBrowserResponse, MultipleContextsError>)
        ensures
            final(self)@ == batch_outcome(old(self)@, events@).manager,
            r is Ok <==> batch_outcome(old(self)@, events@).ok,
            (r matches Ok(delta) ==> delta@ == batch_outcome(old(self)@, events@).delta),
    {
        let ghost start = BatchOutcome { manager: self@, delta: unset_delta(), ok: true };
        let mut pending = events;
        let mut response = QServoBrowserResponse {
            favicon_url: None,
            present: None,
            title: None,
            loading: None,
        };

        while pending.len() > 0
            invariant
                start == (BatchOutcome { manager: old(self)@, delta: unset_delta(), ok: true }),
                run_batch(start, events@) == run_batch(
                    BatchOutcome { manager: self@, delta: response@, ok: true },
                    pending@,
                ),
            decreases pending.len(),
        {
            let ghost pre = BatchOutcome { manager: self@, delta: response@, ok: true };
            let ghost pre_events = pending@;
            let ghost gmsg = pre_events[0].1;
            let (_browser_id, msg) = pending.remove(0);
            proof {
                assert(pending@ =~= pre_events.drop_first());
            }
            match msg {
                EmbedderMsg::AllowNavigationRequest(pipeline_id, _url) => {
                    if self.browser_id.is_some() {
                        self.event_queue.push(
                            EmbedderEvent::AllowNavigationResponse(pipeline_id, true),
                        );
                    }
                },
                EmbedderMsg::BrowserCreated(new_browser_id) => {
                    if self.browser_id.is_some() {
                        proof {
                            lemma_run_batch_dead(step(pre, gmsg), pre_events.drop_first());
                        }
                        return Err(MultipleContextsError);
                    }
                    self.browser_id = Some(new_browser_id);
                    self.event_queue.push(EmbedderEvent::SelectBrowser(new_browser_id));
                },
                EmbedderMsg::ChangePageTitle(title) => {
                    response.title = title;
                },
                EmbedderMsg::NewFavicon(url) => {
                    response.favicon_url = Some(url);
                },
                EmbedderMsg::LoadStart => {
                    response.loading = Some(true);
                },
                EmbedderMsg::LoadComplete => {
                    response.loading = Some(false);
                },
                EmbedderMsg::ReadyToPresent => {
                    response.present = Some(true);
                },
                EmbedderMsg::Other(_tag) => {},
            }
            proof {
                assert(BatchOutcome { manager: self@, delta: response@, ok: true } == step(
                    pre,
                    gmsg,
                ));
            }
        }
        Ok(response)
    }
}

/// A batch outcome that has already terminated fatally is frozen: the
/// notifications after the fatal one have no further effect.
pub proof fn lemma_run_batch_dead(o: BatchOutcome, events: Seq<(Option<BrowserId>, EmbedderMsg)>)
    requires
        !o.ok,
    ensures
        run_batch(o, events) == o,
    decreases events.len(),
{
    if events.len() > 0 {
        lemma_run_batch_dead(o, events.drop_first());
    }
}

} // verus!
