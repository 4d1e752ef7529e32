//! The class-load event handler: what to do with one class that the runtime
//! is about to define.
//!
//! The handler decides and keeps the two stores; the caller does what only it
//! can do. When the handler asks for a container to be scanned first, the
//! caller reads the container and hands its bytes back.
use vstd::prelude::*;
use crate::archive::parsed_archive;
use crate::entry::{has_magic, has_magic_spec, normalize_class_name, normalize_spec};
use crate::resolver::{resolve_container, resolve_spec};
use crate::scanner::{caches_as, lemma_scan_then_lookup, read_and_decrypt_jar_files, scan_spec,
    writes_name};
use crate::store::{mark_spec, DecryptedClassCache, ScannedArchiveRegistry};
use crate::strategy::DecryptionStrategy;

verus! {

/// The branch that an event ended in, with the replacement bytes where
/// there are any.
#[derive(Debug)]
pub enum Outcome {
    /// The class name could not be read: the class is left alone.
    Abort,
    /// The class has no code source, or none that names a container.
    Ignore,
    /// The class comes from a scanned container that holds no protected
    /// copy of it.
    Plain,
    /// The presented bytes were protected as a whole; here they are,
    /// transformed.
    WholeClassEncrypted(Vec<u8>),
    /// The container holds a protected copy of the class; here it is.
    SplitCopyEncrypted(Vec<u8>),
}

/// An `Outcome` as contracts see it.
pub ghost enum OutcomeView {
    Abort,
    Ignore,
    Plain,
    WholeClassEncrypted(Seq<u8>),
    SplitCopyEncrypted(Seq<u8>),
}

impl View for Outcome {
    type V = OutcomeView;

    open spec fn view(&self) -> OutcomeView {
        match self {
            Outcome::Abort => OutcomeView::Abort,
            Outcome::Ignore => OutcomeView::Ignore,
            Outcome::Plain => OutcomeView::Plain,
            Outcome::WholeClassEncrypted(b) => OutcomeView::WholeClassEncrypted(b@),
            Outcome::SplitCopyEncrypted(b) => OutcomeView::SplitCopyEncrypted(b@),
        }
    }
}

impl OutcomeView {
    /// The bytes that take the place of the presented ones, if any do.
    pub open spec fn replacement(self) -> Option<Seq<u8>> {
        match self {
            OutcomeView::WholeClassEncrypted(b) => Some(b),
            OutcomeView::SplitCopyEncrypted(b) => Some(b),
            _ => None,
        }
    }
}

/// What the handler hands back for an event: either its outcome, or the
/// container that has to be scanned before the outcome is known.
#[derive(Debug)]
pub enum GateStep {
    Done(Outcome),
    ScanFirst { container: String, class_name: String },
}

/// A `GateStep` as contracts see it.
pub ghost enum GateStepView {
    Done(OutcomeView),
    ScanFirst { container: Seq<char>, class_name: Seq<char> },
}

impl View for GateStep {
    type V = GateStepView;

    open spec fn view(&self) -> GateStepView {
        match self {
            GateStep::Done(o) => GateStepView::Done(o@),
            GateStep::ScanFirst { container, class_name } => GateStepView::ScanFirst {
                container: container@,
                class_name: class_name@,
            },
        }
    }
}

/// What ends a single class-load event in failure.
#[derive(Clone, Copy, Debug, PartialEq, Eq, Structural)]
pub enum GateError {
    /// The container could not be read or is no archive.
    ContainerOpenFailure,
    /// The host gave no buffer for the replacement.
    AllocationFailure,
}

/// The handler with its registry of scanned containers and its cache of
/// decrypted classes.
pub struct ClassGate {
    registry: ScannedArchiveRegistry,
    cache: DecryptedClassCache,
    max_depth: usize,
}

/// The handler's state as contracts see it: the containers marked, the
/// classes cached, and the depth to which nested containers are followed.
pub ghost struct GateView {
    pub scanned: Set<Seq<char>>,
    pub classes: Map<Seq<char>, Seq<u8>>,
    pub max_depth: nat,
}

impl View for ClassGate {
    type V = GateView;

    closed spec fn view(&self) -> GateView {
        GateView {
            scanned: self.registry@,
            classes: self.cache@,
            max_depth: self.max_depth as nat,
        }
    }
}

/// The outcome for a class whose container has been scanned.
pub open spec fn lookup_spec(classes: Map<Seq<char>, Seq<u8>>, class_name: Seq<char>) -> OutcomeView {
    if classes.contains_key(class_name) {
        OutcomeView::SplitCopyEncrypted(classes[class_name])
    } else {
        OutcomeView::Plain
    }
}

/// The handler's state after an event and what it hands back for it.
pub open spec fn step_spec<S: DecryptionStrategy>(
    strategy: &S,
    gate: GateView,
    name: Option<Seq<char>>,
    class_data: Seq<u8>,
    locator: Option<Seq<char>>,
) -> (GateView, GateStepView) {
    if name is None {
        (gate, GateStepView::Done(OutcomeView::Abort))
    } else if has_magic_spec(class_data) {
        (gate, GateStepView::Done(OutcomeView::WholeClassEncrypted(strategy.plain(class_data))))
    } else if locator is None || resolve_spec(locator->0) is None {
        (gate, GateStepView::Done(OutcomeView::Ignore))
    } else {
        let container = resolve_spec(locator->0)->0;
        let class_name = normalize_spec(name->0);
        if mark_spec(gate.scanned, container).1 {
            (
                GateView { scanned: mark_spec(gate.scanned, container).0, ..gate },
                GateStepView::ScanFirst { container, class_name },
            )
        } else {
            (gate, GateStepView::Done(lookup_spec(gate.classes, class_name)))
        }
    }
}

/// The handler's state after the container of a pending event was read, or
/// could not be read, and the event's result.
pub open spec fn scanned_spec<S: DecryptionStrategy>(
    strategy: &S,
    gate: GateView,
    class_name: Seq<char>,
    container: Option<Seq<u8>>,
) -> (GateView, Result<OutcomeView, GateError>) {
    if container is None || parsed_archive(container->0) is None {
        (gate, Err(GateError::ContainerOpenFailure))
    } else {
        let classes = scan_spec(strategy, container->0, gate.max_depth, gate.classes);
        (GateView { classes, ..gate }, Ok(lookup_spec(classes, class_name)))
    }
}

/// What the caller hands to the host: nothing where the class stays as it
/// is, the replacement where the host granted a buffer for it, and a
/// failure where it did not or where the length is beyond what the host's
/// 32-bit length can say.
pub open spec fn deliver_spec(outcome: OutcomeView, granted: bool) -> Result<
    Option<Seq<u8>>,
    GateError,
> {
    match outcome.replacement() {
        None => Ok(None),
        Some(bytes) => if granted && bytes.len() <= i32::MAX {
            Ok(Some(bytes))
        } else {
            Err(GateError::AllocationFailure)
        },
    }
}

impl Outcome {
    /// The length of the buffer to ask the host for, if the class is
    /// replaced.
    pub fn replacement_len(&self) -> (n: Option<usize>)
        ensures
            match n {
                Some(len) => self@.replacement() is Some && self@.replacement()->0.len() == len,
                None => self@.replacement() is None,
            },
    {
        match self {
            Outcome::WholeClassEncrypted(b) => Some(b.len()),
            Outcome::SplitCopyEncrypted(b) => Some(b.len()),
            _ => None,
        }
    }

    /// Ends the event: `granted` says whether the host gave the buffer
    /// that was asked for.
    pub fn deliver(self, granted: bool) -> (r: Result<Option<Vec<u8>>, GateError>)
        ensures
            match r {
                Ok(Some(bytes)) => deliver_spec(self@, granted) == Ok::<
                    Option<Seq<u8>>,
                    GateError,
                >(Some(bytes@)),
                Ok(None) => deliver_spec(self@, granted) == Ok::<Option<Seq<u8>>, GateError>(
                    None,
                ),
                Err(e) => deliver_spec(self@, granted) == Err::<Option<Seq<u8>>, GateError>(e),
            },
    {
        let bytes = match self {
            Outcome::WholeClassEncrypted(b) => b,
            Outcome::SplitCopyEncrypted(b) => b,
            _ => {
                return Ok(None);
            },
        };
        if granted && bytes.len() <= 0x7fff_ffff {
            Ok(Some(bytes))
        } else {
            Err(GateError::AllocationFailure)
        }
    }
}

/// Does the outcome of an event turn on where the class comes from? It
/// does not where the name could not be read or the bytes open with the
/// marker: the caller then need not ask for the code source.
pub fn needs_code_source(name: Option<&str>, class_data: &[u8]) -> (needed: bool)
    ensures
        needed == (name is Some && !has_magic_spec(class_data@)),
{
    name.is_some() && !has_magic(class_data)
}

impl ClassGate {
    /// A handler that has scanned nothing and cached nothing, and that follows
    /// nested containers `max_depth` levels down.
    pub fn new(max_depth: usize) -> (gate: Self)
        ensures
            gate@ == (GateView {
                scanned: Set::<Seq<char>>::empty(),
                classes: Map::<Seq<char>, Seq<u8>>::empty(),
                max_depth: max_depth as nat,
            }),
    {
        ClassGate {
            registry: ScannedArchiveRegistry::new(),
            cache: DecryptedClassCache::new(),
            max_depth,
        }
    }

    /// Has the container been handed to the scanner?
    pub fn is_scanned(&self, container: &str) -> (b: bool)
        ensures
            b == self@.scanned.contains(container@),
    {
        self.registry.is_scanned(container)
    }

    /// The outcome for a class of a scanned container: its protected copy
    /// if the cache holds one.
    pub fn lookup(&self, class_name: &str) -> (outcome: Outcome)
        ensures
            outcome@ == lookup_spec(self@.classes, class_name@),
    {
        match self.cache.lookup(class_name) {
            Some(bytes) => Outcome::SplitCopyEncrypted(bytes),
            None => Outcome::Plain,
        }
    }

    /// Takes the container that `class_hook_event` asked for, as bytes, or
    /// `None` where it could not be read, scans it and answers the pending
    /// event for `class_name`. A container that cannot be opened fails this
    /// event and leaves the cache as it was.
    pub fn on_container_read<S: DecryptionStrategy>(
        &mut self,
        strategy: &S,
        class_name: &str,
        container: Option<&[u8]>,
    ) -> (r: Result<Outcome, GateError>)
        ensures
            final(self)@ == scanned_spec(
                strategy,
                old(self)@,
                class_name@,
                match container {
                    Some(b) => Some(b@),
                    None => None,
                },
            ).0,
            match r {
                Ok(outcome) => scanned_spec(
                    strategy,
                    old(self)@,
                    class_name@,
                    match container {
                        Some(b) => Some(b@),
                        None => None,
                    },
                ).1 == Ok::<OutcomeView, GateError>(outcome@),
                Err(e) => scanned_spec(
                    strategy,
                    old(self)@,
                    class_name@,
                    match container {
                        Some(b) => Some(b@),
                        None => None,
                    },
                ).1 == Err::<OutcomeView, GateError>(e),
            },
    {
        let bytes = match container {
            Some(b) => b,
            None => {
                return Err(GateError::ContainerOpenFailure);
            },
        };
        match read_and_decrypt_jar_files(&mut self.cache, strategy, bytes, self.max_depth) {
            Ok(()) => Ok(self.lookup(class_name)),
            Err(_) => Err(GateError::ContainerOpenFailure),
        }
    }
}

/// Takes one class-load event: the class name as the runtime writes it
/// (`None` where it could not be read), the bytes presented, and the
/// locator of the code source where the class has one.
///
/// Bytes that open with the marker are transformed whole. Otherwise the
/// locator decides: with no container to name, the class is ignored;
/// with a container seen before, the cache answers; with a new one, the
/// container is marked and the caller is asked to have it scanned.
pub fn class_hook_event<S: DecryptionStrategy>(
    handler: &mut ClassGate,
    strategy: &S,
    name: Option<&str>,
    class_data: &[u8],
    locator: Option<&str>,
) -> (step: GateStep)
    ensures
        (final(handler)@, step@) == step_spec(
            strategy,
            old(handler)@,
            match name {
                Some(n) => Some(n@),
                None => None,
            },
            class_data@,
            match locator {
                Some(l) => Some(l@),
                None => None,
            },
        ),
{
    let raw_name = match name {
        Some(n) => n,
        None => {
            return GateStep::Done(Outcome::Abort);
        },
    };
    if has_magic(class_data) {
        return GateStep::Done(Outcome::WholeClassEncrypted(strategy.transform(class_data)));
    }
    let container = match locator {
        Some(l) => match resolve_container(l) {
            Some(path) => path,
            None => {
                return GateStep::Done(Outcome::Ignore);
            },
        },
        None => {
            return GateStep::Done(Outcome::Ignore);
        },
    };
    let class_name = normalize_class_name(raw_name);
    let marked = container.clone();
    if handler.registry.mark_scanned(marked) {
        GateStep::ScanFirst { container, class_name }
    } else {
        assert(handler.registry@ =~= old(handler).registry@);
        GateStep::Done(handler.lookup(class_name.as_str()))
    }
}

/// Bytes that open with the marker are replaced by their transform, with
/// or without a code source, and the handler's stores stay as they are.
pub proof fn lemma_whole_class_ignores_code_source<S: DecryptionStrategy>(
    strategy: &S,
    gate: GateView,
    name: Seq<char>,
    class_data: Seq<u8>,
    locator: Option<Seq<char>>,
)
    requires
        has_magic_spec(class_data),
    ensures
        step_spec(strategy, gate, Some(name), class_data, locator) == (
            gate,
            GateStepView::Done(OutcomeView::WholeClassEncrypted(strategy.plain(class_data))),
        ),
{
}

/// Where the code source is not needed, it makes no difference: any two
/// locators, or none, give the same step.
pub proof fn lemma_code_source_not_needed<S: DecryptionStrategy>(
    strategy: &S,
    gate: GateView,
    name: Option<Seq<char>>,
    class_data: Seq<u8>,
    one: Option<Seq<char>>,
    other: Option<Seq<char>>,
)
    requires
        name is None || has_magic_spec(class_data),
    ensures
        step_spec(strategy, gate, name, class_data, one) == step_spec(
            strategy,
            gate,
            name,
            class_data,
            other,
        ),
{
}

/// The event that has a container scanned is answered with the protected
/// copy that the container holds of its class: the transform of the bytes
/// behind the marker of the last entry cached under the class's name.
pub proof fn lemma_scanned_class_is_served<S: DecryptionStrategy>(
    strategy: &S,
    gate: GateView,
    container: Seq<u8>,
    i: int,
    class_name: Seq<char>,
)
    requires
        parsed_archive(container) is Some,
        0 <= i < parsed_archive(container)->0.len(),
        caches_as(parsed_archive(container)->0[i], gate.max_depth, class_name),
        !writes_name(parsed_archive(container)->0.skip(i + 1), gate.max_depth, class_name),
    ensures
        scanned_spec(strategy, gate, class_name, Some(container)).1 == Ok::<
            OutcomeView,
            GateError,
        >(
            OutcomeView::SplitCopyEncrypted(
                strategy.plain(parsed_archive(container)->0[i].data->0.skip(4)),
            ),
        ),
{
    lemma_scan_then_lookup(strategy, container, i, class_name, gate.max_depth, gate.classes);
}

/// One use of the handler: an event handed to `class_hook_event`, or a
/// container handed to `on_container_read`.
pub ghost enum ActionView {
    ClassLoad { name: Option<Seq<char>>, class_data: Seq<u8>, locator: Option<Seq<char>> },
    ContainerRead { class_name: Seq<char>, container: Option<Seq<u8>> },
}

/// The handler's state after one use.
pub open spec fn after_action<S: DecryptionStrategy>(
    strategy: &S,
    gate: GateView,
    action: ActionView,
) -> GateView {
    match action {
        ActionView::ClassLoad { name, class_data, locator } => step_spec(
            strategy,
            gate,
            name,
            class_data,
            locator,
        ).0,
        ActionView::ContainerRead { class_name, container } => scanned_spec(
            strategy,
            gate,
            class_name,
            container,
        ).0,
    }
}

/// The use is an event that is answered with the request to scan
/// `container`.
pub open spec fn asks_scan_of<S: DecryptionStrategy>(
    strategy: &S,
    gate: GateView,
    action: ActionView,
    container: Seq<char>,
) -> bool {
    match action {
        ActionView::ClassLoad { name, class_data, locator } => {
            let step = step_spec(strategy, gate, name, class_data, locator).1;
            step is ScanFirst && step->container == container
        },
        ActionView::ContainerRead { .. } => false,
    }
}

/// The use is an event for a class from `container`: its name can be
/// read, its bytes do not open with the marker, and its locator resolves
/// to the container.
pub open spec fn refers_to(action: ActionView, container: Seq<char>) -> bool {
    match action {
        ActionView::ClassLoad { name, class_data, locator } => {
            &&& name is Some
            &&& !has_magic_spec(class_data)
            &&& locator is Some
            &&& resolve_spec(locator->0) == Some(container)
        },
        ActionView::ContainerRead { .. } => false,
    }
}

/// How often a run of uses, one after the other, is answered with the
/// request to scan `container`.
pub open spec fn scans_asked<S: DecryptionStrategy>(
    strategy: &S,
    gate: GateView,
    actions: Seq<ActionView>,
    container: Seq<char>,
) -> nat
    decreases actions.len(),
{
    if actions.len() == 0 {
        0
    } else {
        let first: nat = if asks_scan_of(strategy, gate, actions[0], container) {
            1
        } else {
            0
        };
        first + scans_asked(
            strategy,
            after_action(strategy, gate, actions[0]),
            actions.skip(1),
            container,
        )
    }
}

/// A container is marked after a use exactly if it was marked before or
/// the use asked for its scan; and the scan is asked for exactly of an
/// event for the container while it is unmarked.
pub proof fn lemma_marking<S: DecryptionStrategy>(
    strategy: &S,
    gate: GateView,
    action: ActionView,
    container: Seq<char>,
)
    ensures
        after_action(strategy, gate, action).scanned.contains(container) <==> (
        gate.scanned.contains(container) || asks_scan_of(strategy, gate, action, container)),
        asks_scan_of(strategy, gate, action, container) <==> (refers_to(action, container)
            && !gate.scanned.contains(container)),
{
}

/// Once a container is marked, no run of uses asks for its scan again.
pub proof fn lemma_marked_is_not_scanned_again<S: DecryptionStrategy>(
    strategy: &S,
    gate: GateView,
    actions: Seq<ActionView>,
    container: Seq<char>,
)
    requires
        gate.scanned.contains(container),
    ensures
        scans_asked(strategy, gate, actions, container) == 0,
    decreases actions.len(),
{
    if actions.len() > 0 {
        lemma_marking(strategy, gate, actions[0], container);
        lemma_marked_is_not_scanned_again(
            strategy,
            after_action(strategy, gate, actions[0]),
            actions.skip(1),
            container,
        );
    }
}

/// A container is scanned at most once: whatever the uses of the handler
/// and however many there are, the scan of one container is asked for at
/// most one time.
pub proof fn lemma_scanned_at_most_once<S: DecryptionStrategy>(
    strategy: &S,
    gate: GateView,
    actions: Seq<ActionView>,
    container: Seq<char>,
)
    ensures
        scans_asked(strategy, gate, actions, container) <= 1,
    decreases actions.len(),
{
    if actions.len() > 0 {
        let next = after_action(strategy, gate, actions[0]);
        lemma_marking(strategy, gate, actions[0], container);
        if asks_scan_of(strategy, gate, actions[0], container) {
            lemma_marked_is_not_scanned_again(strategy, next, actions.skip(1), container);
        } else {
            lemma_scanned_at_most_once(strategy, next, actions.skip(1), container);
        }
    }
}

/// Where the container is unmarked and some use is an event for a class
/// from it, its scan is asked for exactly once, whatever the number of
/// such events.
pub proof fn lemma_scanned_exactly_once<S: DecryptionStrategy>(
    strategy: &S,
    gate: GateView,
    actions: Seq<ActionView>,
    container: Seq<char>,
    at: int,
)
    requires
        !gate.scanned.contains(container),
        0 <= at < actions.len(),
        refers_to(actions[at], container),
    ensures
        scans_asked(strategy, gate, actions, container) == 1,
    decreases actions.len(),
{
    let next = after_action(strategy, gate, actions[0]);
    lemma_marking(strategy, gate, actions[0], container);
    if asks_scan_of(strategy, gate, actions[0], container) {
        lemma_marked_is_not_scanned_again(strategy, next, actions.skip(1), container);
    } else {
        assert(at > 0);
        assert(actions.skip(1)[at - 1] == actions[at]);
        lemma_scanned_exactly_once(strategy, next, actions.skip(1), container, at - 1);
    }
}

/// An event never unmarks a container and never touches the cache: the
/// registry afterwards holds all that it held before, and the classes are
/// those cached before.
pub proof fn lemma_event_keeps_registry<S: DecryptionStrategy>(
    strategy: &S,
    gate: GateView,
    name: Option<Seq<char>>,
    class_data: Seq<u8>,
    locator: Option<Seq<char>>,
)
    ensures
        gate.scanned.subset_of(step_spec(strategy, gate, name, class_data, locator).0.scanned),
        step_spec(strategy, gate, name, class_data, locator).0.classes == gate.classes,
{
}

} // verus!
