//! What handlers return, the report of an emission, and the settings of a bus.

use vstd::prelude::*;
use crate::text::same_text;
use crate::event::metrics::{MetricsSink, NoopMetricsSink};
use crate::event::subscription::{
    law_subscription_ids_differ,
    pattern_matches_spec,
    subscription_id,
    Subscription,
    SubscriptionView,
};

verus! {

/// How the run of one handler ended.
#[derive(Debug)]
pub enum HandlerResult {
    /// The handler completed.
    Success,
    /// The handler returned an error.
    Error(String),
    /// The handler panicked and was recovered.
    Panic(String),
}

/// Mathematical value of a [`HandlerResult`].
pub enum HandlerResultView {
    Success,
    Error(Seq<char>),
    Panic(Seq<char>),
}

impl View for HandlerResult {
    type V = HandlerResultView;

    open spec fn view(&self) -> HandlerResultView {
        match self {
            HandlerResult::Success => HandlerResultView::Success,
            HandlerResult::Error(text) => HandlerResultView::Error(text@),
            HandlerResult::Panic(text) => HandlerResultView::Panic(text@),
        }
    }
}

impl Clone for HandlerResult {
    fn clone(&self) -> (copy: Self)
        ensures
            copy@ == self@,
    {
        match self {
            HandlerResult::Success => HandlerResult::Success,
            HandlerResult::Error(text) => HandlerResult::Error(text.clone()),
            HandlerResult::Panic(text) => HandlerResult::Panic(text.clone()),
        }
    }
}

impl HandlerResult {
    /// Whether the handler completed.
    pub fn is_success(&self) -> (yes: bool)
        ensures
            yes == (self@ is Success),
    {
        matches!(self, HandlerResult::Success)
    }

    /// Whether the handler returned an error.
    pub fn is_error(&self) -> (yes: bool)
        ensures
            yes == (self@ is Error),
    {
        matches!(self, HandlerResult::Error(_))
    }

    /// Whether the handler panicked.
    pub fn is_panic(&self) -> (yes: bool)
        ensures
            yes == (self@ is Panic),
    {
        matches!(self, HandlerResult::Panic(_))
    }
}

/// How the handlers of one emission ended, in numbers.
#[derive(Clone, Copy, Debug, PartialEq, Eq, Structural)]
pub struct EmitReport {
    /// Handlers that completed.
    pub success_count: usize,
    /// Handlers that returned an error.
    pub error_count: usize,
    /// Handlers that panicked.
    pub panic_count: usize,
    /// Handlers that were invoked.
    pub total_count: usize,
}

/// The report of an emission that no handler has answered yet.
pub open spec fn empty_report() -> EmitReport {
    EmitReport { success_count: 0, error_count: 0, panic_count: 0, total_count: 0 }
}

/// The report after one more handler ended with `result`.
pub open spec fn with_result(report: EmitReport, result: HandlerResultView) -> EmitReport
    recommends
        report.total_count < usize::MAX,
        report.success_count < usize::MAX,
        report.error_count < usize::MAX,
        report.panic_count < usize::MAX,
{
    match result {
        HandlerResultView::Success => EmitReport {
            success_count: (report.success_count + 1) as usize,
            total_count: (report.total_count + 1) as usize,
            ..report
        },
        HandlerResultView::Error(_) => EmitReport {
            error_count: (report.error_count + 1) as usize,
            total_count: (report.total_count + 1) as usize,
            ..report
        },
        HandlerResultView::Panic(_) => EmitReport {
            panic_count: (report.panic_count + 1) as usize,
            total_count: (report.total_count + 1) as usize,
            ..report
        },
    }
}

/// The total is the sum of the three counts.
pub open spec fn report_adds_up(report: EmitReport) -> bool {
    report.total_count == report.success_count + report.error_count + report.panic_count
}

impl Default for EmitReport {
    fn default() -> (report: Self)
        ensures
            report == empty_report(),
    {
        EmitReport::new()
    }
}

impl EmitReport {
    /// A report without any result.
    pub fn new() -> (report: Self)
        ensures
            report == empty_report(),
    {
        EmitReport { success_count: 0, error_count: 0, panic_count: 0, total_count: 0 }
    }

    /// Whether no handler returned an error or panicked.
    pub fn is_all_ok(&self) -> (ok: bool)
        ensures
            ok == (self.error_count == 0 && self.panic_count == 0),
    {
        self.error_count == 0 && self.panic_count == 0
    }

    /// Counts one more handler, which ended with `result`.
    pub fn add_result(&mut self, result: &HandlerResult)
        requires
            old(self).total_count < usize::MAX,
            old(self).success_count < usize::MAX,
            old(self).error_count < usize::MAX,
            old(self).panic_count < usize::MAX,
        ensures
            *final(self) == with_result(*old(self), result@),
    {
        self.total_count += 1;
        match result {
            HandlerResult::Success => self.success_count += 1,
            HandlerResult::Error(_) => self.error_count += 1,
            HandlerResult::Panic(_) => self.panic_count += 1,
        }
    }
}

/// A report whose total is the sum of its counts keeps that property with
/// every result that is added, and then no single count can overflow before
/// the total does.
pub proof fn law_report_adds_up(report: EmitReport, result: HandlerResultView)
    requires
        report_adds_up(report),
        report.total_count < usize::MAX,
    ensures
        report_adds_up(with_result(report, result)),
        with_result(report, result).total_count == report.total_count + 1,
{
}

/// A metrics sink of whatever type, held as a trait object.
pub struct BoxedSink {
    sink: Box<dyn MetricsSink>,
}

/// The sink `sink`, held as a trait object.
pub closed spec fn boxed_sink<T: MetricsSink + 'static>(sink: T) -> BoxedSink {
    BoxedSink { sink: Box::new(sink) }
}

impl BoxedSink {
    /// The trait object that is held.
    pub closed spec fn as_box(&self) -> &Box<dyn MetricsSink> {
        &self.sink
    }

    /// Holds `sink` as a trait object.
    fn of<T: MetricsSink + 'static>(sink: T) -> (boxed: Self)
        ensures
            boxed == boxed_sink(sink),
    {
        BoxedSink { sink: Box::new(sink) }
    }
}

/// The settings of an event bus, set one by one.
pub struct EventBusBuilder {
    catch_panics: bool,
    tracing_enabled: bool,
    metrics_sink: BoxedSink,
}

impl Default for EventBusBuilder {
    /// Panics of handlers are caught, tracing is off, nothing is collected.
    fn default() -> (builder: Self)
        ensures
            builder.catches_panics(),
            !builder.traces(),
            builder.sink() == boxed_sink(NoopMetricsSink),
    {
        EventBusBuilder::new()
    }
}

impl EventBusBuilder {
    /// Whether the bus will catch the panics of its handlers.
    pub closed spec fn catches_panics(&self) -> bool {
        self.catch_panics
    }

    /// Whether the bus will trace its emissions.
    pub closed spec fn traces(&self) -> bool {
        self.tracing_enabled
    }

    /// The sink that will collect the metrics of the bus.
    pub closed spec fn sink(&self) -> BoxedSink {
        self.metrics_sink
    }

    /// The default settings: panics of handlers are caught, tracing is off,
    /// nothing is collected.
    pub fn new() -> (builder: Self)
        ensures
            builder.catches_panics(),
            !builder.traces(),
            builder.sink() == boxed_sink(NoopMetricsSink),
    {
        EventBusBuilder {
            catch_panics: true,
            tracing_enabled: false,
            metrics_sink: BoxedSink::of(NoopMetricsSink),
        }
    }

    /// Sets whether the bus catches the panics of its handlers.
    pub fn catch_panics(self, enabled: bool) -> (builder: Self)
        ensures
            builder.catches_panics() == enabled,
            builder.traces() == self.traces(),
            builder.sink() == self.sink(),
    {
        let mut builder = self;
        builder.catch_panics = enabled;
        builder
    }

    /// Sets whether the bus traces its emissions.
    pub fn tracing(self, enabled: bool) -> (builder: Self)
        ensures
            builder.traces() == enabled,
            builder.catches_panics() == self.catches_panics(),
            builder.sink() == self.sink(),
    {
        let mut builder = self;
        builder.tracing_enabled = enabled;
        builder
    }

    /// Sets the sink that collects the metrics of the bus: `sink` takes the
    /// place of the sink that was set before, and the other settings stay.
    pub fn metrics<T: MetricsSink + 'static>(self, sink: T) -> (builder: Self)
        ensures
            builder.sink() == boxed_sink(sink),
            builder.catches_panics() == self.catches_panics(),
            builder.traces() == self.traces(),
    {
        let mut builder = self;
        builder.metrics_sink = BoxedSink::of(sink);
        builder
    }

    /// Whether the bus will catch the panics of its handlers.
    pub fn catches_panics_enabled(&self) -> (enabled: bool)
        ensures
            enabled == self.catches_panics(),
    {
        self.catch_panics
    }

    /// Whether the bus will trace its emissions.
    pub fn tracing_enabled(&self) -> (enabled: bool)
        ensures
            enabled == self.traces(),
    {
        self.tracing_enabled
    }

    /// A bus with these settings and without subscriptions, for handlers of
    /// type `H`.
    pub fn build<H>(self) -> (bus: EventBus<H>)
        ensures
            bus.wf(),
            bus.entries() == Seq::<(SubscriptionView, H)>::empty(),
            bus.made() == 0,
            bus.catches_panics() == self.catches_panics(),
            bus.traces() == self.traces(),
            bus.sink() == self.sink(),
    {
        let bus = EventBus {
            handlers: Vec::new(),
            next_subscription: 0,
            catch_panics: self.catch_panics,
            tracing_enabled: self.tracing_enabled,
            metrics_sink: self.metrics_sink,
        };
        assert(bus.entries() =~= Seq::<(SubscriptionView, H)>::empty());
        bus
    }
}

/// The identifiers of `subscriptions`, in their order.
pub open spec fn subscription_ids(subscriptions: Seq<SubscriptionView>) -> Seq<Seq<char>> {
    Seq::new(subscriptions.len(), |i: int| subscriptions[i].id)
}

/// The subscriptions among `entries`, each with its handler, that receive
/// the event `event`, in their order.
pub open spec fn receiving<H>(entries: Seq<(SubscriptionView, H)>, event: Seq<char>) -> Seq<
    (SubscriptionView, H),
> {
    entries.filter(|entry: (SubscriptionView, H)| pattern_matches_spec(entry.0.pattern, event))
}

/// The subscriptions of `entries`, without their handlers.
pub open spec fn subscriptions_of<H>(entries: Seq<(SubscriptionView, H)>) -> Seq<SubscriptionView> {
    Seq::new(entries.len(), |i: int| entries[i].0)
}

/// The entries without the subscription `id`; the entries themselves where
/// there is no such subscription.
pub open spec fn without_subscription<H>(entries: Seq<(SubscriptionView, H)>, id: Seq<char>) -> Seq<
    (SubscriptionView, H),
> {
    let ids = subscription_ids(subscriptions_of(entries));
    if ids.contains(id) {
        entries.remove(ids.index_of(id))
    } else {
        entries
    }
}

/// The values of a listing of subscriptions with their handlers.
pub open spec fn listed<H>(listing: Seq<(&Subscription, &H)>) -> Seq<(SubscriptionView, H)> {
    Seq::new(listing.len(), |i: int| (listing[i].0@, *listing[i].1))
}

/// The subscriptions of an event bus with their handlers, of whatever type
/// `H` the handlers are. The bus files and finds; running the handlers is
/// the caller's work.
pub struct EventBus<H> {
    handlers: Vec<(Subscription, H)>,
    next_subscription: usize,
    catch_panics: bool,
    tracing_enabled: bool,
    metrics_sink: BoxedSink,
}

impl<H> View for EventBus<H> {
    type V = Seq<SubscriptionView>;

    open spec fn view(&self) -> Seq<SubscriptionView> {
        subscriptions_of(self.entries())
    }
}

impl<H> Default for EventBus<H> {
    fn default() -> (bus: Self)
        ensures
            bus.wf(),
            bus.entries() == Seq::<(SubscriptionView, H)>::empty(),
            bus.made() == 0,
            bus.catches_panics(),
            !bus.traces(),
            bus.sink() == boxed_sink(NoopMetricsSink),
    {
        EventBus::new()
    }
}

impl<H> EventBus<H> {
    /// The subscriptions with their handlers, in the order in which they
    /// were made.
    pub closed spec fn entries(&self) -> Seq<(SubscriptionView, H)> {
        Seq::new(self.handlers@.len(), |i: int| (self.handlers@[i].0@, self.handlers@[i].1))
    }

    /// How many subscriptions were made on this bus so far, those that were
    /// taken back included.
    pub closed spec fn made(&self) -> nat {
        self.next_subscription as nat
    }

    /// Whether the bus catches the panics of its handlers.
    pub closed spec fn catches_panics(&self) -> bool {
        self.catch_panics
    }

    /// Whether the bus traces its emissions.
    pub closed spec fn traces(&self) -> bool {
        self.tracing_enabled
    }

    /// The sink that collects the metrics of the bus.
    pub closed spec fn sink(&self) -> BoxedSink {
        self.metrics_sink
    }

    /// Every subscription carries the identifier of a number below the count
    /// of subscriptions made, and no identifier occurs twice.
    pub open spec fn wf(&self) -> bool {
        &&& subscription_ids(self@).no_duplicates()
        &&& forall|i: int|
            0 <= i < self@.len() ==> exists|n: nat|
                n < self.made() && #[trigger] self@[i].id == subscription_id(n)
    }

    /// A bus with the default settings and without subscriptions.
    pub fn new() -> (bus: Self)
        ensures
            bus.wf(),
            bus.entries() == Seq::<(SubscriptionView, H)>::empty(),
            bus.made() == 0,
            bus.catches_panics(),
            !bus.traces(),
            bus.sink() == boxed_sink(NoopMetricsSink),
    {
        EventBusBuilder::new().build()
    }

    /// The settings to build a bus from.
    pub fn builder() -> (builder: EventBusBuilder)
        ensures
            builder.catches_panics(),
            !builder.traces(),
            builder.sink() == boxed_sink(NoopMetricsSink),
    {
        EventBusBuilder::new()
    }

    /// Files `handler` for the events that match `pattern` and returns the
    /// subscription, whose identifier no other subscription of this bus has
    /// or had.
    pub fn subscribe(&mut self, pattern: &str, handler: H) -> (subscription: Subscription)
        requires
            old(self).wf(),
            old(self).made() < usize::MAX,
        ensures
            final(self).wf(),
            final(self).made() == old(self).made() + 1,
            final(self).catches_panics() == old(self).catches_panics(),
            final(self).traces() == old(self).traces(),
            final(self).sink() == old(self).sink(),
            subscription@ == (SubscriptionView {
                id: subscription_id(old(self).made()),
                pattern: pattern@,
            }),
            !subscription_ids(old(self)@).contains(subscription@.id),
            final(self).entries() == old(self).entries().push((subscription@, handler)),
    {
        let subscription = Subscription::new(pattern, self.next_subscription);
        let ghost ids = subscription_ids(self@);
        proof {
            assert forall|i: int| 0 <= i < ids.len() implies ids[i] != subscription@.id by {
                let n = choose|n: nat| n < self.made() && self@[i].id == subscription_id(n);
                law_subscription_ids_differ(n, self.made());
            }
        }
        self.handlers.push((subscription.clone(), handler));
        self.next_subscription = self.next_subscription + 1;
        proof {
            assert(self.entries() =~= old(self).entries().push((subscription@, handler)));
            assert(self@ =~= old(self)@.push(subscription@));
            assert(subscription_ids(self@) =~= ids.push(subscription@.id));
            assert forall|i: int| 0 <= i < self@.len() implies exists|n: nat|
                n < self.made() && #[trigger] self@[i].id == subscription_id(n) by {
                if i < old(self)@.len() {
                    let n = choose|n: nat|
                        n < old(self).made() && old(self)@[i].id == subscription_id(n);
                    assert(n < self.made() && self@[i].id == subscription_id(n));
                } else {
                    assert(self@[i].id == subscription_id(old(self).made()));
                }
            }
        }
        subscription
    }

    /// Where the subscription `id` is filed.
    fn find(&self, id: &String) -> (found: Option<usize>)
        ensures
            match found {
                Some(i) => i < self.handlers@.len() && subscription_ids(self@)[i as int] == id@
                    && subscription_ids(self@).contains(id@),
                None => !subscription_ids(self@).contains(id@),
            },
    {
        let mut i: usize = 0;
        while i < self.handlers.len()
            invariant
                i <= self.handlers@.len(),
                forall|k: int| 0 <= k < i ==> subscription_ids(self@)[k] != id@,
            decreases self.handlers@.len() - i,
        {
            if same_text(self.handlers[i].0.id(), id.as_str()) {
                assert(subscription_ids(self@)[i as int] == id@);
                return Some(i);
            }
            i += 1;
        }
        None
    }

    /// Takes the subscription back, together with its handler. Returns
    /// whether it was filed on this bus.
    pub fn unsubscribe(&mut self, subscription: &Subscription) -> (removed: bool)
        requires
            old(self).wf(),
        ensures
            final(self).wf(),
            final(self).made() == old(self).made(),
            final(self).catches_panics() == old(self).catches_panics(),
            final(self).traces() == old(self).traces(),
            final(self).sink() == old(self).sink(),
            removed == subscription_ids(old(self)@).contains(subscription@.id),
            final(self).entries() == without_subscription(old(self).entries(), subscription@.id),
    {
        let key = subscription.id().to_owned();
        match self.find(&key) {
            None => false,
            Some(i) => {
                let ghost ids = subscription_ids(old(self)@);
                assert(ids.index_of(key@) == i as int);
                let _ = self.handlers.remove(i);
                proof {
                    assert(self.entries() =~= old(self).entries().remove(i as int));
                    assert(self@ =~= old(self)@.remove(i as int));
                    assert(subscription_ids(self@) =~= ids.remove(i as int));
                    ids.remove_ensures(i as int);
                    assert forall|k: int| 0 <= k < self@.len() implies exists|n: nat|
                        n < self.made() && #[trigger] self@[k].id == subscription_id(n) by {
                        let before = if k < i as int {
                            k
                        } else {
                            k + 1
                        };
                        let n = choose|n: nat|
                            n < old(self).made() && old(self)@[before].id == subscription_id(n);
                        assert(n < self.made() && self@[k].id == subscription_id(n));
                    }
                }
                true
            },
        }
    }

    /// How many subscriptions were made on this bus so far, those that were
    /// taken back included.
    pub fn subscriptions_made(&self) -> (count: usize)
        ensures
            count == self.made(),
    {
        self.next_subscription
    }

    /// How many subscriptions are filed.
    pub fn subscription_count(&self) -> (count: usize)
        ensures
            count == self@.len(),
    {
        self.handlers.len()
    }

    /// The subscriptions that receive the event `pattern`, each with its
    /// handler, in the order in which they were made.
    pub fn matching_handlers(&self, pattern: &str) -> (listing: Vec<(&Subscription, &H)>)
        ensures
            listed(listing@) == receiving(self.entries(), pattern@),
    {
        let ghost wanted = |entry: (SubscriptionView, H)|
            pattern_matches_spec(entry.0.pattern, pattern@);
        let ghost entries = self.entries();
        let mut listing: Vec<(&Subscription, &H)> = Vec::new();
        let mut i: usize = 0;
        assert(entries.take(0) =~= Seq::<(SubscriptionView, H)>::empty());
        assert(entries.take(0).filter(wanted) =~= Seq::<(SubscriptionView, H)>::empty()) by {
            reveal(Seq::filter);
        }
        assert(listed(listing@) =~= Seq::<(SubscriptionView, H)>::empty());
        while i < self.handlers.len()
            invariant
                i <= self.handlers@.len(),
                entries == self.entries(),
                wanted == |entry: (SubscriptionView, H)|
                    pattern_matches_spec(entry.0.pattern, pattern@),
                listed(listing@) == entries.take(i as int).filter(wanted),
            decreases self.handlers@.len() - i,
        {
            proof {
                assert(entries.take(i as int + 1) =~= entries.take(i as int).push(
                    entries[i as int],
                ));
                assert(entries.take(i as int + 1).drop_last() =~= entries.take(i as int));
                reveal(Seq::filter);
            }
            let ghost before = listed(listing@);
            if self.handlers[i].0.matches(pattern) {
                listing.push((&self.handlers[i].0, &self.handlers[i].1));
                assert(listed(listing@) =~= before.push(entries[i as int]));
            }
            i += 1;
        }
        assert(entries.take(i as int) =~= entries);
        listing
    }

    /// Emits the event `pattern`: runs, through `run`, the handler of every
    /// subscription that receives it, once each and in the order of the
    /// subscriptions, tells the metrics sink of the emission and of every
    /// result, and returns the tally of the results.
    pub fn emit_and_report<F: Fn(&H) -> HandlerResult>(&self, pattern: &str, run: F) -> (report:
        EmitReport)
        requires
            forall|handler: &H| call_requires(run, (handler,)),
        ensures
            emitted(receiving(self.entries(), pattern@), run, report),
    {
        let listing = self.matching_handlers(pattern);
        self.metrics_sink.sink.on_emit(pattern, listing.len());
        let ghost targets = receiving(self.entries(), pattern@);
        assert(listing@.len() == listed(listing@).len());
        let mut report = EmitReport::new();
        let ghost mut outcomes: Seq<HandlerResult> = Seq::empty();
        assert(result_views(outcomes) =~= Seq::<HandlerResultView>::empty());
        let mut i: usize = 0;
        while i < listing.len()
            invariant
                i <= listing@.len(),
                listed(listing@) == targets,
                outcomes.len() == i,
                forall|k: int|
                    0 <= k < i ==> call_ensures(run, (&targets[k].1,), #[trigger] outcomes[k]),
                report == tally(result_views(outcomes)),
                report.total_count == i,
                report_adds_up(report),
                forall|handler: &H| call_requires(run, (handler,)),
            decreases listing@.len() - i,
        {
            let result = run(listing[i].1);
            self.metrics_sink.sink.on_handler_result(pattern, listing[i].0.id(), &result);
            report.add_result(&result);
            proof {
                let extended = outcomes.push(result);
                assert(targets[i as int].1 == *listing@[i as int].1) by {
                    assert(listed(listing@)[i as int] == targets[i as int]);
                }
                assert(result_views(extended).drop_last() =~= result_views(outcomes));
                assert(result_views(extended).last() == result@);
                outcomes = extended;
            }
            i += 1;
        }
        assert(tallies(targets, run, report, outcomes));
        report
    }

    /// Emits the event `pattern` and returns how many handlers were run: as
    /// many as there are subscriptions that receive it.
    pub fn emit_and_count<F: Fn(&H) -> HandlerResult>(&self, pattern: &str, run: F) -> (count:
        usize)
        requires
            forall|handler: &H| call_requires(run, (handler,)),
        ensures
            count == receiving(self.entries(), pattern@).len(),
    {
        let report = self.emit_and_report(pattern, run);
        proof {
            let outcomes = choose|outcomes: Seq<HandlerResult>|
                tallies(receiving(self.entries(), pattern@), run, report, outcomes);
            lemma_tally_counts(result_views(outcomes));
        }
        report.total_count
    }

    /// Emits the event `pattern` without reporting.
    pub fn emit<F: Fn(&H) -> HandlerResult>(&self, pattern: &str, run: F)
        requires
            forall|handler: &H| call_requires(run, (handler,)),
    {
        let _ = self.emit_and_report(pattern, run);
    }

    /// Emits the event `pattern`, one handler after the other: another name
    /// of [`EventBus::emit_and_report`].
    pub fn emit_sync_sequential<F: Fn(&H) -> HandlerResult>(&self, pattern: &str, run: F) -> (report:
        EmitReport)
        requires
            forall|handler: &H| call_requires(run, (handler,)),
        ensures
            emitted(receiving(self.entries(), pattern@), run, report),
    {
        self.emit_and_report(pattern, run)
    }

    /// Whether the bus catches the panics of its handlers.
    pub fn catches_panics_enabled(&self) -> (enabled: bool)
        ensures
            enabled == self.catches_panics(),
    {
        self.catch_panics
    }

    /// Whether the bus traces its emissions.
    pub fn tracing_enabled(&self) -> (enabled: bool)
        ensures
            enabled == self.traces(),
    {
        self.tracing_enabled
    }

    /// The sink that collects the metrics of the bus: the one that the bus
    /// was built with, which every emission notifies.
    pub fn metrics_sink(&self) -> (sink: &Box<dyn MetricsSink>)
        ensures
            sink == self.sink().as_box(),
    {
        &self.metrics_sink.sink
    }
}

/// The tally of `outcomes`: the report after each of them was added in turn.
pub open spec fn tally(outcomes: Seq<HandlerResultView>) -> EmitReport
    decreases outcomes.len(),
{
    if outcomes.len() == 0 {
        empty_report()
    } else {
        with_result(tally(outcomes.drop_last()), outcomes.last())
    }
}

/// The values of a sequence of handler results.
pub open spec fn result_views(results: Seq<HandlerResult>) -> Seq<HandlerResultView> {
    Seq::new(results.len(), |i: int| results[i]@)
}

/// Whether `outcomes` are what `run` returned for the handlers of `targets`,
/// one for each and in their order, and `report` is their tally.
pub open spec fn tallies<H, F: Fn(&H) -> HandlerResult>(
    targets: Seq<(SubscriptionView, H)>,
    run: F,
    report: EmitReport,
    outcomes: Seq<HandlerResult>,
) -> bool {
    &&& outcomes.len() == targets.len()
    &&& forall|k: int|
        0 <= k < targets.len() ==> call_ensures(run, (&targets[k].1,), #[trigger] outcomes[k])
    &&& report == tally(result_views(outcomes))
    &&& targets.len() <= usize::MAX
}

/// Whether `report` is the tally of running `run` on the handler of each of
/// `targets`, once each and in their order.
pub open spec fn emitted<H, F: Fn(&H) -> HandlerResult>(
    targets: Seq<(SubscriptionView, H)>,
    run: F,
    report: EmitReport,
) -> bool {
    exists|outcomes: Seq<HandlerResult>| tallies(targets, run, report, outcomes)
}

/// A tally of no more results than a count can hold counts all of them, and
/// its total is the sum of its three counts.
pub proof fn lemma_tally_counts(outcomes: Seq<HandlerResultView>)
    requires
        outcomes.len() <= usize::MAX,
    ensures
        tally(outcomes).total_count == outcomes.len(),
        report_adds_up(tally(outcomes)),
    decreases outcomes.len(),
{
    if outcomes.len() > 0 {
        lemma_tally_counts(outcomes.drop_last());
    }
}

} // verus!
