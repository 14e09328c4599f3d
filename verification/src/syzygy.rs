//! The context that owns the model and the resources, and executes effects.
use crate::effect_bus::{batch_holds, EffectBatch, EffectBus, EffectReceiver, EffectSender};
use crate::resource::{insert_all, Resources};
use crate::spawn::{RayonPool, TokioHandle};
use std::marker::PhantomData;
use tokio::sync::oneshot;
use vstd::prelude::*;

verus! {

/// Work that runs on the context, with full access to it.
pub trait Effect<M, V = ()>: Sized {
    fn execute(self, syzygy: &mut Syzygy<M, Self, V>);
}

/// The application's context: its model, its resources, the bus its effects
/// arrive on, and the runtime its async work is spawned on.
#[verifier::reject_recursive_types(E)]
pub struct Syzygy<M, E, V = ()> {
    resources: Resources<V>,
    effect_bus: EffectBus<E>,
    tokio_handle: TokioHandle,
    rayon_pool: Option<RayonPool>,
    model: M,
}

/// Builds a [`Syzygy`]: the model and the runtime must be given, resources may be.
#[verifier::reject_recursive_types(E)]
pub struct SyzygyBuilder<M, E, V = ()> {
    resources: Resources<V>,
    model: Option<M>,
    tokio_handle: Option<TokioHandle>,
    rayon_pool: Option<RayonPool>,
    effects: PhantomData<E>,
}

impl<M, E, V> SyzygyBuilder<M, E, V> {
    /// The model given so far.
    pub closed spec fn staged_model(&self) -> Option<M> {
        self.model
    }

    /// The runtime given so far.
    pub closed spec fn staged_runtime(&self) -> Option<TokioHandle> {
        self.tokio_handle
    }

    /// The parallel pool given so far, if any.
    pub closed spec fn staged_pool(&self) -> Option<RayonPool> {
        self.rayon_pool
    }

    /// The resources given so far.
    pub closed spec fn staged_resources(&self) -> Map<u64, V> {
        self.resources@
    }

    /// Whether everything that `build` needs has been given.
    pub open spec fn complete(&self) -> bool {
        self.staged_model() is Some && self.staged_runtime() is Some
    }

    /// Sets the model.
    pub fn model(self, model: M) -> (b: Self)
        ensures
            b.staged_model() == Some(model),
            b.staged_runtime() == self.staged_runtime(),
            b.staged_pool() == self.staged_pool(),
            b.staged_resources() == self.staged_resources(),
    {
        SyzygyBuilder { model: Some(model), ..self }
    }

    /// Sets the runtime on which async work will be spawned.
    pub fn tokio_handle<H>(self, handle: H) -> (b: Self)
        where TokioHandle: From<H>
        ensures
            b.staged_runtime() matches Some(h) && call_ensures(TokioHandle::from, (handle,), h),
            b.staged_model() == self.staged_model(),
            b.staged_pool() == self.staged_pool(),
            b.staged_resources() == self.staged_resources(),
    {
        SyzygyBuilder { tokio_handle: Some(TokioHandle::from(handle)), ..self }
    }

    /// Sets the pool on which parallel work will be spawned.
    pub fn rayon_pool<P>(self, pool: P) -> (b: Self)
        where RayonPool: From<P>
        ensures
            b.staged_pool() matches Some(p) && call_ensures(RayonPool::from, (pool,), p),
            b.staged_model() == self.staged_model(),
            b.staged_runtime() == self.staged_runtime(),
            b.staged_resources() == self.staged_resources(),
    {
        SyzygyBuilder { rayon_pool: Some(RayonPool::from(pool)), ..self }
    }

    /// Adds a resource under `key`, replacing one given before under the same key.
    pub fn resource(self, key: u64, resource: V) -> (b: Self)
        ensures
            b.staged_resources() == self.staged_resources().insert(key, resource),
            b.staged_model() == self.staged_model(),
            b.staged_runtime() == self.staged_runtime(),
            b.staged_pool() == self.staged_pool(),
    {
        let mut builder = self;
        builder.resources.insert(key, resource);
        builder
    }

    /// The context, with what was given and an empty effect bus.
    pub fn build(self) -> (s: Syzygy<M, E, V>)
        requires
            self.complete(),
        ensures
            Some(s.current_model()) == self.staged_model(),
            Some(s.runtime()) == self.staged_runtime(),
            s.parallel_pool() == self.staged_pool(),
            s.resource_map() == self.staged_resources(),
    {
        let SyzygyBuilder { resources, model, tokio_handle, rayon_pool, effects: _ } = self;
        Syzygy {
            resources,
            effect_bus: EffectBus::new(),
            tokio_handle: tokio_handle.unwrap(),
            rayon_pool,
            model: model.unwrap(),
        }
    }
}

/// A resource given to the builder under a key is what the built context finds under
/// that key.
pub proof fn lemma_built_resource_found<M, E, V>(
    before: SyzygyBuilder<M, E, V>,
    after: SyzygyBuilder<M, E, V>,
    built: Syzygy<M, E, V>,
    key: u64,
    value: V,
)
    requires
        after.staged_resources() == before.staged_resources().insert(key, value),
        built.resource_map() == after.staged_resources(),
    ensures
        built.resource_map().contains_key(key),
        built.resource_map()[key] == value,
{
}

/// Changing the model changes nothing else: the resources, the runtime and the bus
/// stay as they were.
pub proof fn lemma_model_change_keeps_the_rest<M, E, V>(s: Syzygy<M, E, V>, model: M)
    ensures
        s.with_model(model).current_model() == model,
        s.with_model(model).resource_map() == s.resource_map(),
        s.with_model(model).runtime() == s.runtime(),
        s.with_model(model).parallel_pool() == s.parallel_pool(),
        s.with_model(model).sender() == s.sender(),
        s.with_model(s.current_model()) == s,
{
}

/// Polling the bus, signalling a completion and sending change only the bus: the
/// model, the resources, the runtime and the pool stay as they were, and each step
/// adds exactly one entry to its own record.
pub proof fn lemma_bus_steps_keep_the_rest<M, E, V>(
    s: Syzygy<M, E, V>,
    polled: Option<EffectBatch<E>>,
    completion: Option<oneshot::Sender<()>>,
    batch: EffectBatch<E>,
)
    ensures
        s.with_poll(polled).current_model() == s.current_model(),
        s.with_poll(polled).resource_map() == s.resource_map(),
        s.with_poll(polled).runtime() == s.runtime(),
        s.with_poll(polled).parallel_pool() == s.parallel_pool(),
        s.with_poll(polled).sender() == s.sender(),
        s.with_poll(polled).signals() == s.signals(),
        s.with_poll(polled).polls() == s.polls().push(polled),
        s.with_completion(completion).current_model() == s.current_model(),
        s.with_completion(completion).resource_map() == s.resource_map(),
        s.with_completion(completion).runtime() == s.runtime(),
        s.with_completion(completion).parallel_pool() == s.parallel_pool(),
        s.with_completion(completion).sender() == s.sender(),
        s.with_completion(completion).polls() == s.polls(),
        s.with_completion(completion).signals() == s.signals().push(completion),
        s.with_sender(s.sender().accepted(batch)).current_model() == s.current_model(),
        s.with_sender(s.sender().accepted(batch)).resource_map() == s.resource_map(),
        s.with_sender(s.sender().accepted(batch)).runtime() == s.runtime(),
        s.with_sender(s.sender().accepted(batch)).parallel_pool() == s.parallel_pool(),
        s.with_sender(s.sender().accepted(batch)).polls() == s.polls(),
        s.with_sender(s.sender().accepted(batch)).signals() == s.signals(),
        s.with_sender(s.sender().accepted(batch)).sender().sent() == s.sender().sent().push(batch),
{
    EffectSender::lemma_accepted_records(s.sender(), batch);
    EffectReceiver::lemma_receiver_records(s.effect_bus.effect_receiver, polled, completion);
}

/// A series of `resource` calls on a builder leaves the staged resources as the
/// writes inserted one after another, whatever else was set between them.
pub proof fn lemma_builder_series<M, E, V>(
    builders: Seq<SyzygyBuilder<M, E, V>>,
    writes: Seq<(u64, V)>,
)
    requires
        builders.len() == writes.len() + 1,
        forall|i: int| 0 <= i < writes.len() ==>
            #[trigger] builders[i + 1].staged_resources()
                == builders[i].staged_resources().insert(writes[i].0, writes[i].1),
    ensures
        builders.last().staged_resources() == insert_all(builders[0].staged_resources(), writes),
    decreases writes.len(),
{
    if writes.len() > 0 {
        let n = writes.len() - 1;
        let earlier = builders.drop_last();
        assert forall|i: int| 0 <= i < writes.drop_last().len() implies
            #[trigger] earlier[i + 1].staged_resources()
                == earlier[i].staged_resources().insert(writes.drop_last()[i].0, writes.drop_last()[i].1) by {
            assert(earlier[i + 1] == builders[i + 1]);
            assert(builders[i + 1].staged_resources()
                == builders[i].staged_resources().insert(writes[i].0, writes[i].1));
        }
        lemma_builder_series(earlier, writes.drop_last());
        assert(builders[n + 1].staged_resources()
            == builders[n].staged_resources().insert(writes[n].0, writes[n].1));
    }
}

/// What the builder was given is what the built context holds: its runtime is the
/// handle given (so `tokio_handle` derefs to it), and its pool, if one was given, is
/// that pool.
pub proof fn lemma_build_keeps_what_was_given<M, E, V>(builder: SyzygyBuilder<M, E, V>, built: Syzygy<M, E, V>)
    requires
        Some(built.runtime()) == builder.staged_runtime(),
        built.parallel_pool() == builder.staged_pool(),
    ensures
        builder.staged_runtime() matches Some(h) && built.runtime().handle() == h.handle(),
        builder.staged_pool() matches Some(p) ==> built.parallel_pool() matches Some(q) && q.pool() == p.pool(),
{
}

/// One step of handling the bus: a poll and what it returned, one effect executed, or
/// a batch's completion signalled.
pub enum HandlingStep<E> {
    Polled(Option<EffectBatch<E>>),
    Executed(E),
    Completed(Option<oneshot::Sender<()>>),
}

/// The steps of handling one batch: its effects executed first to last, then its
/// completion signalled.
pub open spec fn batch_steps<E>(batch: EffectBatch<E>) -> Seq<HandlingStep<E>> {
    batch.effects@.map_values(|e: E| HandlingStep::Executed(e)).push(HandlingStep::Completed(batch.completion))
}

/// The steps of handling `batches`, polled in this order: for each batch, the poll
/// that returned it, then the steps of handling it.
pub open spec fn handling_trace<E>(batches: Seq<EffectBatch<E>>) -> Seq<HandlingStep<E>>
    decreases batches.len(),
{
    if batches.len() == 0 {
        Seq::empty()
    } else {
        handling_trace(batches.drop_last()).push(HandlingStep::Polled(Some(batches.last())))
            + batch_steps(batches.last())
    }
}

/// `i` is a position in a sequence of length `n`.
pub open spec fn is_index(i: int, n: int) -> bool {
    0 <= i < n
}

fn run_effect<M, E: Effect<M, V>, V, F: FnOnce(E, &mut Syzygy<M, E, V>)>(
    run: F,
    effect: E,
    syzygy: &mut Syzygy<M, E, V>,
)
    requires
        forall|s: &mut Syzygy<M, E, V>| #[trigger] run.requires((effect, s)),
    ensures
        exists|s: &mut Syzygy<M, E, V>|
            *s == *old(syzygy) && *final(s) == *final(syzygy) && #[trigger] run.ensures((effect, s), ()),
{
    run(effect, syzygy);
}

impl<M, E, V> Syzygy<M, E, V> {
    /// The model.
    pub closed spec fn current_model(&self) -> M {
        self.model
    }

    /// The resources, by key.
    pub closed spec fn resource_map(&self) -> Map<u64, V> {
        self.resources@
    }

    /// The runtime on which async work is spawned.
    pub closed spec fn runtime(&self) -> TokioHandle {
        self.tokio_handle
    }

    /// The pool on which parallel work is spawned, if one was given.
    pub closed spec fn parallel_pool(&self) -> Option<RayonPool> {
        self.rayon_pool
    }

    /// The handle through which effects reach this context.
    pub closed spec fn sender(&self) -> EffectSender<E> {
        self.effect_bus.effect_sender
    }

    /// This context with its sending handle replaced and everything else kept.
    pub closed spec fn with_sender(self, sender: EffectSender<E>) -> Self {
        Syzygy { effect_bus: EffectBus { effect_sender: sender, ..self.effect_bus }, ..self }
    }

    /// This context after a poll of its bus that returned `polled`.
    pub closed spec fn with_poll(self, polled: Option<EffectBatch<E>>) -> Self {
        Syzygy {
            effect_bus: EffectBus {
                effect_receiver: self.effect_bus.effect_receiver.polled(polled),
                ..self.effect_bus
            },
            ..self
        }
    }

    /// This context after signalling the completion `completion` of a batch.
    pub closed spec fn with_completion(self, completion: Option<oneshot::Sender<()>>) -> Self {
        Syzygy {
            effect_bus: EffectBus {
                effect_receiver: self.effect_bus.effect_receiver.signalled(completion),
                ..self.effect_bus
            },
            ..self
        }
    }

    /// The completion signals this context has given, oldest first.
    pub closed spec fn signals(&self) -> Seq<Option<oneshot::Sender<()>>> {
        self.effect_bus.effect_receiver.signals()
    }

    /// What each poll of this context's bus returned, oldest first.
    pub closed spec fn polls(&self) -> Seq<Option<EffectBatch<E>>> {
        self.effect_bus.effect_receiver.polls()
    }

    /// This context with its model replaced and everything else kept.
    pub closed spec fn with_model(self, model: M) -> Self {
        Syzygy { model, ..self }
    }

    /// A builder with nothing given yet.
    pub fn builder() -> (b: SyzygyBuilder<M, E, V>)
        ensures
            b.staged_model() is None,
            b.staged_runtime() is None,
            b.staged_pool() is None,
            b.staged_resources() == Map::<u64, V>::empty(),
    {
        SyzygyBuilder {
            resources: Resources::new(),
            model: None,
            tokio_handle: None,
            rayon_pool: None,
            effects: PhantomData,
        }
    }

    /// Reads the model.
    pub fn model(&self) -> (m: &M)
        ensures
            *m == self.current_model(),
    {
        &self.model
    }

    /// Lends the model for change; nothing else changes.
    pub fn model_mut(&mut self) -> (m: &mut M)
        ensures
            *m == old(self).current_model(),
            *final(self) == old(self).with_model(*final(m)),
    {
        &mut self.model
    }

    /// Changes the model with `f`; nothing else changes.
    pub fn update<F: FnOnce(&mut M)>(&mut self, f: F)
        requires
            forall|m: &mut M| #[trigger] f.requires((m,)),
        ensures
            exists|m: &mut M|
                *m == old(self).current_model() && *final(m) == final(self).current_model()
                    && #[trigger] f.ensures((m,), ()),
            *final(self) == old(self).with_model(final(self).current_model()),
    {
        f(&mut self.model);
    }

    /// What `f` computes from the model.
    pub fn query<R, F: FnOnce(&M) -> R>(&self, f: F) -> (r: R)
        requires
            f.requires((&self.current_model(),)),
        ensures
            f.ensures((&self.current_model(),), r),
    {
        f(&self.model)
    }

    /// The resource store.
    pub fn resources(&self) -> (r: &Resources<V>)
        ensures
            r@ == self.resource_map(),
    {
        &self.resources
    }

    /// The resource stored under `key`, which must be there.
    pub fn resource(&self, key: u64) -> (r: &V)
        requires
            self.resource_map().contains_key(key),
        ensures
            *r == self.resource_map()[key],
    {
        self.resources.get(key).unwrap()
    }

    /// The resource stored under `key`, if any.
    pub fn try_resource(&self, key: u64) -> (r: Option<&V>)
        ensures
            r == (if self.resource_map().contains_key(key) {
                Some(&self.resource_map()[key])
            } else {
                None
            }),
    {
        self.resources.get(key)
    }

    /// The handle through which effects reach this context.
    pub fn effect_sender(&self) -> (r: &EffectSender<E>)
        ensures
            *r == self.sender(),
    {
        &self.effect_bus.effect_sender
    }

    /// The runtime on which async work is spawned.
    pub fn tokio_handle(&self) -> (r: &TokioHandle)
        ensures
            *r == self.runtime(),
    {
        &self.tokio_handle
    }

    /// The pool on which parallel work is spawned, if one was given.
    pub fn rayon_pool(&self) -> (r: Option<&RayonPool>)
        ensures
            r == (match self.parallel_pool() {
                Some(p) => Some(&p),
                None => None,
            }),
    {
        match &self.rayon_pool {
            Some(p) => Some(p),
            None => None,
        }
    }

    /// Sends one effect to this context, as a batch of its own; it runs at the next
    /// `handle_effects`. An effect that could not be delivered comes back.
    pub fn send(&mut self, effect: E) -> (r: Result<(), E>)
        ensures
            match r {
                Ok(()) => exists|b: EffectBatch<E>|
                    #[trigger] batch_holds(b, seq![effect], false)
                        && *final(self) == old(self).with_sender(old(self).sender().accepted(b)),
                Err(back) => back == effect && *final(self) == *old(self),
            },
    {
        self.effect_bus.effect_sender.send(effect)
    }

    /// Sends several effects as one batch. Effects that could not be delivered come
    /// back.
    pub fn send_multiple(&mut self, effects: Vec<E>) -> (r: Result<(), Vec<E>>)
        ensures
            match r {
                Ok(()) => exists|b: EffectBatch<E>|
                    #[trigger] batch_holds(b, effects@, false)
                        && *final(self) == old(self).with_sender(old(self).sender().accepted(b)),
                Err(back) => back@ == effects@ && *final(self) == *old(self),
            },
    {
        self.effect_bus.effect_sender.send_multiple(effects)
    }

    /// Sends one effect with a completion signal and returns the receiver that fires
    /// once it has run. An effect that could not be delivered comes back.
    pub fn send_blocking(&mut self, effect: E) -> (r: Result<oneshot::Receiver<()>, E>)
        ensures
            match r {
                Ok(_) => exists|b: EffectBatch<E>|
                    #[trigger] batch_holds(b, seq![effect], true)
                        && *final(self) == old(self).with_sender(old(self).sender().accepted(b)),
                Err(back) => back == effect && *final(self) == *old(self),
            },
    {
        self.effect_bus.effect_sender.send_blocking(effect)
    }

    /// Executes `effects` one after another, first to last, each exactly once.
    fn run_in_order(&mut self, effects: Vec<E>) -> (states: Ghost<Seq<Syzygy<M, E, V>>>)
        where E: Effect<M, V>
        ensures
            states@.len() == effects@.len() + 1,
            states@[0] == *old(self),
            states@.last() == *final(self),
            forall|i: int| #[trigger] is_index(i, effects@.len() as int) ==>
                exists|s: &mut Syzygy<M, E, V>|
                    *s == states@[i] && *final(s) == states@[i + 1]
                        && #[trigger] call_ensures(E::execute, (effects@[i], s), ()),
    {
        let ghost all = effects@;
        let mut pending: Vec<E> = Vec::new();
        let mut remaining = effects;
        // Reverse once, so that popping yields the effects in the order they were sent.
        while remaining.len() > 0
            invariant
                remaining@ == all.take(remaining@.len() as int),
                remaining@.len() + pending@.len() == all.len(),
                forall|k: int| 0 <= k < pending@.len() ==> pending@[k] == all[all.len() - 1 - k],
            decreases remaining.len(),
        {
            let e = remaining.pop().unwrap();
            pending.push(e);
        }
        let ghost mut states: Seq<Syzygy<M, E, V>> = seq![*self];
        let ghost mut done: int = 0;
        while pending.len() > 0
            invariant
                0 <= done,
                pending@.len() + done == all.len(),
                forall|k: int| 0 <= k < pending@.len() ==> pending@[k] == all[all.len() - 1 - k],
                states.len() == done + 1,
                states[0] == *old(self),
                states.last() == *self,
                forall|i: int| #[trigger] is_index(i, done) ==>
                    exists|s: &mut Syzygy<M, E, V>|
                        *s == states[i] && *final(s) == states[i + 1]
                            && #[trigger] call_ensures(E::execute, (all[i], s), ()),
            decreases pending.len(),
        {
            let e = pending.pop().unwrap();
            let ghost before = *self;
            run_effect(E::execute, e, self);
            proof {
                let prev = states;
                states = states.push(*self);
                assert(states[0] == prev[0]);
                assert forall|i: int| #[trigger] is_index(i, done + 1) implies
                    exists|s: &mut Syzygy<M, E, V>|
                        *s == states[i] && *final(s) == states[i + 1]
                            && #[trigger] call_ensures(E::execute, (all[i], s), ()) by {
                    if i < done {
                        assert(is_index(i, done));
                        assert(states[i] == prev[i]);
                        assert(states[i + 1] == prev[i + 1]);
                    } else {
                        assert(states[i] == before);
                        assert(states[i + 1] == *self);
                        assert(e == all[i]);
                    }
                }
                done = done + 1;
            }
        }
        Ghost(states)
    }

    /// Executes the effects of `batch` one after another, first to last, each exactly
    /// once, and then signals the batch's completion, if it asked for one: the steps
    /// taken are `batch_steps(batch)`.
    pub fn handle_batch(&mut self, batch: EffectBatch<E>)
        where E: Effect<M, V>
        ensures
            exists|states: Seq<Syzygy<M, E, V>>| {
                &&& states.len() == batch_steps(batch).len() + 1
                &&& states[0] == *old(self)
                &&& states.last() == *final(self)
                &&& forall|i: int| #[trigger] is_index(i, batch_steps(batch).len() as int) ==>
                    match batch_steps(batch)[i] {
                        HandlingStep::Polled(p) => states[i + 1] == states[i].with_poll(p),
                        HandlingStep::Executed(e) => exists|s: &mut Syzygy<M, E, V>|
                            *s == states[i] && *final(s) == states[i + 1]
                                && #[trigger] call_ensures(E::execute, (e, s), ()),
                        HandlingStep::Completed(c) => states[i + 1] == states[i].with_completion(c),
                    }
            },
    {
        let states = self.run_batch(batch);
        proof {
            let steps = batch_steps(batch);
            assert(states@.len() == steps.len() + 1 && states@[0] == *old(self) && states@.last() == *self
                && forall|i: int| #[trigger] is_index(i, steps.len() as int) ==>
                    match steps[i] {
                        HandlingStep::Polled(p) => states@[i + 1] == states@[i].with_poll(p),
                        HandlingStep::Executed(e) => exists|s: &mut Syzygy<M, E, V>|
                            *s == states@[i] && *final(s) == states@[i + 1]
                                && #[trigger] call_ensures(E::execute, (e, s), ()),
                        HandlingStep::Completed(c) => states@[i + 1] == states@[i].with_completion(c),
                    });
        }
    }

    fn run_batch(&mut self, batch: EffectBatch<E>) -> (states: Ghost<Seq<Syzygy<M, E, V>>>)
        where E: Effect<M, V>
        ensures
            states@.len() == batch_steps(batch).len() + 1,
            states@[0] == *old(self),
            states@.last() == *final(self),
            forall|i: int| #[trigger] is_index(i, batch_steps(batch).len() as int) ==>
                match batch_steps(batch)[i] {
                    HandlingStep::Polled(p) => states@[i + 1] == states@[i].with_poll(p),
                    HandlingStep::Executed(e) => exists|s: &mut Syzygy<M, E, V>|
                        *s == states@[i] && *final(s) == states@[i + 1]
                            && #[trigger] call_ensures(E::execute, (e, s), ()),
                    HandlingStep::Completed(c) => states@[i + 1] == states@[i].with_completion(c),
                },
    {
        let ghost steps = batch_steps(batch);
        let EffectBatch { effects, completion } = batch;
        let ghost n = effects@.len();
        let ghost signal = completion;
        let executed = self.run_in_order(effects);
        let ghost before = *self;
        self.effect_bus.effect_receiver.complete(completion);
        let ghost states = executed@.push(*self);
        proof {
            assert(*self == before.with_completion(signal));
            assert forall|i: int| #[trigger] is_index(i, steps.len() as int) implies
                match steps[i] {
                    HandlingStep::Polled(p) => states[i + 1] == states[i].with_poll(p),
                    HandlingStep::Executed(e) => exists|s: &mut Syzygy<M, E, V>|
                        *s == states[i] && *final(s) == states[i + 1]
                            && #[trigger] call_ensures(E::execute, (e, s), ()),
                    HandlingStep::Completed(c) => states[i + 1] == states[i].with_completion(c),
                } by {
                if i < n {
                    assert(is_index(i, n as int));
                    assert(steps[i] == HandlingStep::Executed(batch.effects@[i]));
                    assert(states[i] == executed@[i]);
                    assert(states[i + 1] == executed@[i + 1]);
                    let e = batch.effects@[i];
                    assert(exists|s: &mut Syzygy<M, E, V>|
                        *s == states[i] && *final(s) == states[i + 1]
                            && #[trigger] call_ensures(E::execute, (e, s), ()));
                    assert(steps[i] matches HandlingStep::Executed(x) && x == e);
                } else {
                    assert(steps[i] == HandlingStep::<E>::Completed(signal));
                    assert(states[i] == before);
                }
            }
        }
        Ghost(states)
    }

    /// Takes every batch waiting on the bus, oldest first, and handles it, until a poll
    /// finds the bus empty; batches that the effects themselves send are handled too.
    /// One call handles at most `u64::MAX` batches. The call is the sequence of steps
    /// `handling_trace(batches)` followed by an empty poll (or, after `u64::MAX`
    /// batches, without it), where `batches` are what the polls returned: each poll is
    /// recorded on the bus, each polled batch's effects are executed one after another,
    /// each exactly once, and then its completion is signalled, before the next poll.
    pub fn handle_effects(&mut self)
        where E: Effect<M, V>
        ensures
            exists|batches: Seq<EffectBatch<E>>, steps: Seq<HandlingStep<E>>, states: Seq<Syzygy<M, E, V>>| {
                &&& (steps == handling_trace(batches).push(HandlingStep::Polled(None))
                    || (steps == handling_trace(batches) && batches.len() == u64::MAX))
                &&& states.len() == steps.len() + 1
                &&& states[0] == *old(self)
                &&& states.last() == *final(self)
                &&& forall|i: int| #[trigger] is_index(i, steps.len() as int) ==>
                    match steps[i] {
                        HandlingStep::Polled(p) => states[i + 1] == states[i].with_poll(p),
                        HandlingStep::Executed(e) => exists|s: &mut Syzygy<M, E, V>|
                            *s == states[i] && *final(s) == states[i + 1]
                                && #[trigger] call_ensures(E::execute, (e, s), ()),
                        HandlingStep::Completed(c) => states[i + 1] == states[i].with_completion(c),
                    }
            },
    {
        let ghost mut batches: Seq<EffectBatch<E>> = Seq::empty();
        let ghost mut steps: Seq<HandlingStep<E>> = Seq::empty();
        let ghost mut states: Seq<Syzygy<M, E, V>> = seq![*self];
        let mut budget: u64 = u64::MAX;
        let mut drained = false;
        while budget > 0 && !drained
            invariant
                batches.len() + budget == u64::MAX,
                steps == (if drained {
                    handling_trace(batches).push(HandlingStep::Polled(None))
                } else {
                    handling_trace(batches)
                }),
                states.len() == steps.len() + 1,
                states[0] == *old(self),
                states.last() == *self,
                forall|i: int| #[trigger] is_index(i, steps.len() as int) ==>
                    match steps[i] {
                        HandlingStep::Polled(p) => states[i + 1] == states[i].with_poll(p),
                        HandlingStep::Executed(e) => exists|s: &mut Syzygy<M, E, V>|
                            *s == states[i] && *final(s) == states[i + 1]
                                && #[trigger] call_ensures(E::execute, (e, s), ()),
                        HandlingStep::Completed(c) => states[i + 1] == states[i].with_completion(c),
                    },
            decreases budget, if drained { 0int } else { 1int },
        {
            let ghost before = *self;
            let next = self.effect_bus.effect_receiver.next_effect();
            proof {
                let prev_steps = steps;
                let prev_states = states;
                steps = steps.push(HandlingStep::Polled(next));
                states = states.push(*self);
                assert(*self == before.with_poll(next));
                assert forall|i: int| #[trigger] is_index(i, steps.len() as int) implies
                        match steps[i] {
                            HandlingStep::Polled(p) => states[i + 1] == states[i].with_poll(p),
                            HandlingStep::Executed(e) => exists|s: &mut Syzygy<M, E, V>|
                                *s == states[i] && *final(s) == states[i + 1]
                                    && #[trigger] call_ensures(E::execute, (e, s), ()),
                            HandlingStep::Completed(c) => states[i + 1] == states[i].with_completion(c),
                        } by {
                    if i < prev_steps.len() {
                        assert(is_index(i, prev_steps.len() as int));
                        assert(steps[i] == prev_steps[i]);
                        assert(states[i] == prev_states[i]);
                        assert(states[i + 1] == prev_states[i + 1]);
                    } else {
                        assert(states[i] == before);
                    }
                }
            }
            match next {
                None => {
                    drained = true;
                },
                Some(batch) => {
                    let ghost polled = batch;
                    let batch_states = self.run_batch(batch);
                    proof {
                        let inner = batch_states@;
                        let added = batch_steps(polled);
                        let prev_steps = steps;
                        let prev_states = states;
                        let m = prev_steps.len();
                        steps = prev_steps + added;
                        states = prev_states + inner.skip(1);
                        assert(batches.push(polled).drop_last() =~= batches);
                        batches = batches.push(polled);
                        assert(steps == handling_trace(batches));
                        assert(states[0] == prev_states[0]);
                        assert forall|i: int| #[trigger] is_index(i, steps.len() as int) implies
                                match steps[i] {
                                    HandlingStep::Polled(p) => states[i + 1] == states[i].with_poll(p),
                                    HandlingStep::Executed(e) => exists|s: &mut Syzygy<M, E, V>|
                                        *s == states[i] && *final(s) == states[i + 1]
                                            && #[trigger] call_ensures(E::execute, (e, s), ()),
                                    HandlingStep::Completed(c) => states[i + 1] == states[i].with_completion(c),
                                } by {
                            if i < m {
                                assert(is_index(i, m as int));
                                assert(steps[i] == prev_steps[i]);
                                assert(states[i] == prev_states[i]);
                                assert(states[i + 1] == prev_states[i + 1]);
                            } else {
                                let j = i - m;
                                assert(is_index(j, added.len() as int));
                                assert(steps[i] == added[j]);
                                assert(states[i] == inner[j]);
                                assert(states[i + 1] == inner[j + 1]);
                            }
                        }
                        assert(states.last() == inner.last());
                    }
                    budget = budget - 1;
                },
            }
        }
    }
}

} // verus!
