//! The protocol every notifier follows: derive, filter by severity, emit.
use vstd::prelude::*;
use vstd::string::*;
use crate::resource::PackedResource;

verus! {

/// The kinds of notifier that can be activated.
#[derive(Debug, Clone, Copy, PartialEq, Eq, Structural)]
pub enum NotifierType {
    Log,
    Slack,
}

impl NotifierType {
    /// The kind's lower-case name.
    pub open spec fn name(self) -> Seq<char> {
        match self {
            NotifierType::Log => "log"@,
            NotifierType::Slack => "slack"@,
        }
    }

    /// Renders the kind's lower-case name.
    pub fn to_string(&self) -> (text: String)
        ensures
            text@ == self.name(),
    {
        match self {
            NotifierType::Log => String::from_str("log"),
            NotifierType::Slack => String::from_str("slack"),
        }
    }
}

/// Severity of a notification, and the threshold a notifier is configured
/// with. The scale is `Info < Warn < Error`.
#[derive(Debug, Clone, Copy, PartialEq, Eq, Structural, PartialOrd, Ord, Hash)]
pub enum NotifierLogLevel {
    Info,
    Warn,
    Error,
}

impl NotifierLogLevel {
    /// Position of the level on the scale.
    pub open spec fn rank(self) -> int {
        match self {
            NotifierLogLevel::Info => 0,
            NotifierLogLevel::Warn => 1,
            NotifierLogLevel::Error => 2,
        }
    }

    /// Whether the level is `threshold` or more severe.
    pub open spec fn at_least(self, threshold: NotifierLogLevel) -> bool {
        self.rank() >= threshold.rank()
    }

    /// The level's lower-case name.
    pub open spec fn name(self) -> Seq<char> {
        match self {
            NotifierLogLevel::Info => "info"@,
            NotifierLogLevel::Warn => "warn"@,
            NotifierLogLevel::Error => "error"@,
        }
    }

    /// Computes the level's position on the scale.
    pub fn severity(self) -> (rank: u8)
        ensures
            rank == self.rank(),
    {
        match self {
            NotifierLogLevel::Info => 0,
            NotifierLogLevel::Warn => 1,
            NotifierLogLevel::Error => 2,
        }
    }

    /// Tells whether the level is `threshold` or more severe.
    pub fn meets(self, threshold: NotifierLogLevel) -> (met: bool)
        ensures
            met == self.at_least(threshold),
    {
        self.severity() >= threshold.severity()
    }

    /// Renders the level's lower-case name.
    pub fn to_string(&self) -> (text: String)
        ensures
            text@ == self.name(),
    {
        match self {
            NotifierLogLevel::Info => String::from_str("info"),
            NotifierLogLevel::Warn => String::from_str("warn"),
            NotifierLogLevel::Error => String::from_str("error"),
        }
    }
}

/// The scale is a total order: two levels of equal rank are the same level,
/// any two levels compare one way or the other, and `at_least` is transitive.
pub proof fn lemma_levels_totally_ordered(
    a: NotifierLogLevel,
    b: NotifierLogLevel,
    c: NotifierLogLevel,
)
    ensures
        a.at_least(b) || b.at_least(a),
        a.at_least(b) && b.at_least(a) ==> a == b,
        a.at_least(b) && b.at_least(c) ==> a.at_least(c),
        NotifierLogLevel::Error.at_least(a),
        a.at_least(NotifierLogLevel::Info),
        !NotifierLogLevel::Info.at_least(NotifierLogLevel::Warn),
        !NotifierLogLevel::Warn.at_least(NotifierLogLevel::Error),
{
}

/// A type that carries a severity
pub trait Loggable {
    /// The severity the value carries.
    spec fn level(&self) -> NotifierLogLevel;

    fn log_level(&self) -> (level: NotifierLogLevel)
        ensures
            level == self.level(),
    ;
}

/// The test a notification passes iff its severity is `threshold` or more
/// severe.
pub open spec fn passes<N: Loggable>(threshold: NotifierLogLevel) -> spec_fn(N) -> bool {
    |n: N| n.level().at_least(threshold)
}

/// Keeps, in order, the notifications whose severity is `threshold` or more
/// severe, and drops the others.
pub fn retain_at_least<N: Loggable>(notifications: Vec<N>, threshold: NotifierLogLevel) -> (kept:
    Vec<N>)
    ensures
        kept@ == notifications@.filter(passes::<N>(threshold)),
        forall|i: int| 0 <= i < kept@.len() ==> (#[trigger] kept@[i]).level().at_least(threshold),
        forall|i: int|
            0 <= i < notifications@.len() ==> (kept@.contains(#[trigger] notifications@[i])
                <==> notifications@[i].level().at_least(threshold)),
{
    let ghost all = notifications@;
    let ghost pred = passes::<N>(threshold);
    let mut rest = notifications;
    let mut stack: Vec<N> = Vec::new();
    while rest.len() > 0
        invariant
            rest@.len() + stack@.len() == all.len(),
            rest@ == all.take(rest@.len() as int),
            forall|j: int| 0 <= j < stack@.len() ==> #[trigger] stack@[j] == all[all.len() - 1 - j],
        decreases rest.len(),
    {
        let n = rest.pop().unwrap();
        stack.push(n);
        assert(rest@ =~= all.take(rest@.len() as int));
    }
    let mut kept: Vec<N> = Vec::new();
    while stack.len() > 0
        invariant
            pred == passes::<N>(threshold),
            stack@.len() <= all.len(),
            forall|j: int| 0 <= j < stack@.len() ==> #[trigger] stack@[j] == all[all.len() - 1 - j],
            kept@ == all.take(all.len() - stack@.len()).filter(pred),
        decreases stack.len(),
    {
        let ghost i = all.len() - stack@.len();
        let n = stack.pop().unwrap();
        proof {
            let next = all.take(i + 1);
            assert(n == all[i]);
            assert(next.drop_last() =~= all.take(i));
            assert(next.last() == n);
            reveal_with_fuel(Seq::filter, 2);
        }
        if n.log_level().meets(threshold) {
            kept.push(n);
        }
    }
    proof {
        assert(all.take(all.len() as int) =~= all);
        assert forall|i: int| 0 <= i < kept@.len() implies (#[trigger] kept@[i]).level().at_least(
            threshold,
        ) by {
            all.lemma_filter_pred(pred, i);
        }
        assert forall|i: int| 0 <= i < all.len() implies (kept@.contains(#[trigger] all[i])
            <==> all[i].level().at_least(threshold)) by {
            if pred(all[i]) {
                all.lemma_filter_contains(pred, i);
            }
            if kept@.contains(all[i]) {
                let j = choose|j: int| 0 <= j < kept@.len() && kept@[j] == all[i];
                all.lemma_filter_pred(pred, j);
            }
        }
    }
    kept
}

/// What a notifier's cursor on the fan-out channel yields.
#[derive(Debug, Clone)]
pub enum Received {
    /// The next snapshot, in the order published.
    Resource(PackedResource),
    /// The notifier read too slowly: this many snapshots were dropped.
    Lagged(u64),
    /// The channel closed: nothing more will come.
    Closed,
}

/// What a notifier does next.
pub enum Step<N> {
    /// Emit these notifications, all of them, independently of each other;
    /// then wait for the next item.
    Emit(Vec<N>),
    /// Report that this many snapshots were missed; then wait for the next item.
    ReportLag(u64),
    /// Stop: the channel closed.
    Stop,
}

/// Why one notification could not be delivered.
#[derive(Debug, Clone)]
pub struct EmitError {
    pub reason: String,
}

/// A notifier that outputs messages on a channel
pub trait Notifier {
    type Notification: Loggable;

    /// The severity below which this notifier emits nothing.
    spec fn threshold(&self) -> NotifierLogLevel;

    /// Whether `derived` is what this notifier derives from `resource`.
    spec fn derives(&self, resource: &PackedResource, derived: Seq<Self::Notification>) -> bool;

    /// Creates zero or more notifications based on a snapshot
    fn create_notifications(&self, resource: &PackedResource) -> (derived: Vec<Self::Notification>)
        ensures
            self.derives(resource, derived@),
    ;

    /// Configured log level for this notifier
    fn log_level(&self) -> (level: NotifierLogLevel)
        ensures
            level == self.threshold(),
    ;
}

/// Decides what `notifier` does with one item from its cursor.
///
/// A snapshot is turned into the notifications the notifier derives from it,
/// of which those at or above its threshold are kept in order for emission.
/// A lag signal derives nothing and is only reported. The end of the stream
/// stops the notifier.
pub fn run_step<T: Notifier>(notifier: &T, item: &Received) -> (step: Step<T::Notification>)
    ensures
        match *item {
            Received::Resource(resource) => step matches Step::Emit(kept) && exists|
                derived: Seq<T::Notification>,
            |
                #[trigger] notifier.derives(&resource, derived) && kept@ == derived.filter(
                    passes::<T::Notification>(notifier.threshold()),
                ),
            Received::Lagged(missed) => step matches Step::ReportLag(count) && count == missed,
            Received::Closed => step is Stop,
        },
{
    match item {
        Received::Resource(resource) => {
            let derived = notifier.create_notifications(resource);
            let ghost all = derived@;
            let kept = retain_at_least(derived, notifier.log_level());
            assert(notifier.derives(resource, all));
            Step::Emit(kept)
        },
        Received::Lagged(missed) => Step::ReportLag(*missed),
        Received::Closed => Step::Stop,
    }
}

/// The positions of the failed outcomes in `outcomes`, ascending.
pub open spec fn failures(outcomes: Seq<Result<(), EmitError>>) -> Seq<usize>
    decreases outcomes.len(),
{
    if outcomes.len() == 0 {
        Seq::empty()
    } else if outcomes.last().is_err() {
        failures(outcomes.drop_last()).push((outcomes.len() - 1) as usize)
    } else {
        failures(outcomes.drop_last())
    }
}

/// Every listed position is a failed outcome, every failed outcome is
/// listed, and the others stand as delivered whatever their siblings did.
pub proof fn lemma_failures_exact(outcomes: Seq<Result<(), EmitError>>)
    requires
        outcomes.len() <= usize::MAX,
    ensures
        forall|k: int|
            0 <= k < failures(outcomes).len() ==> 0 <= (#[trigger] failures(outcomes)[k])
                < outcomes.len() && outcomes[failures(outcomes)[k] as int].is_err(),
        forall|i: int|
            0 <= i < outcomes.len() ==> (#[trigger] outcomes[i].is_err() <==> failures(
                outcomes,
            ).contains(i as usize)),
        failures(outcomes).len() <= outcomes.len(),
    decreases outcomes.len(),
{
    if outcomes.len() > 0 {
        let front = outcomes.drop_last();
        lemma_failures_exact(front);
        let found = failures(outcomes);
        let last = (outcomes.len() - 1) as usize;
        assert forall|i: int| 0 <= i < outcomes.len() implies (#[trigger] outcomes[i].is_err()
            <==> found.contains(i as usize)) by {
            if i < front.len() {
                assert(outcomes[i] == front[i]);
                if front[i].is_err() {
                    let k = choose|k: int|
                        0 <= k < failures(front).len() && failures(front)[k] == i as usize;
                    assert(found[k] == i as usize);
                }
                if found.contains(i as usize) {
                    let k = choose|k: int| 0 <= k < found.len() && found[k] == i as usize;
                    if k < failures(front).len() {
                        assert(failures(front)[k] == i as usize);
                    }
                }
            } else {
                if outcomes[i].is_err() {
                    assert(found[found.len() - 1] == last);
                }
                if found.contains(i as usize) {
                    let k = choose|k: int| 0 <= k < found.len() && found[k] == i as usize;
                    if k < failures(front).len() {
                        assert(failures(front)[k] == found[k]);
                    }
                }
            }
        }
    }
}

/// Collects what is to be reported once every emission of one step has
/// completed: the positions of those that failed, in dispatch order. A
/// failure takes nothing from its siblings, and the notifier goes on to the
/// next item either way.
pub fn failed_emissions(outcomes: &Vec<Result<(), EmitError>>) -> (failed: Vec<usize>)
    ensures
        failed@ == failures(outcomes@),
        forall|i: int|
            0 <= i < outcomes@.len() ==> (#[trigger] outcomes@[i].is_err() <==> failed@.contains(
                i as usize,
            )),
{
    let mut failed: Vec<usize> = Vec::new();
    let mut i: usize = 0;
    while i < outcomes.len()
        invariant
            i <= outcomes.len(),
            failed@ == failures(outcomes@.take(i as int)),
        decreases outcomes.len() - i,
    {
        proof {
            let next = outcomes@.take(i as int + 1);
            assert(next.drop_last() =~= outcomes@.take(i as int));
            assert(next.last() == outcomes@[i as int]);
        }
        if outcomes[i].is_err() {
            failed.push(i);
        }
        i += 1;
    }
    proof {
        assert(outcomes@.take(i as int) =~= outcomes@);
        lemma_failures_exact(outcomes@);
    }
    failed
}

} // verus!
