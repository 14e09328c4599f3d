//! The bus on which effects travel to the context that executes them.
use crate::channel::{
    clone_std_sender, new_oneshot, new_std_channel, oneshot_send, std_send, std_try_recv, ChannelReceiver,
    ChannelSender, SignalLog,
};
use tokio::sync::oneshot;
use vstd::prelude::*;

verus! {

/// Effects sent together, executed together and in order, and the signal that
/// tells the sender when they have all been executed.
pub struct EffectBatch<E> {
    pub effects: Vec<E>,
    pub completion: Option<oneshot::Sender<()>>,
}

/// The handle through which effects are sent; it can be cloned and moved to other
/// threads and tasks.
#[verifier::reject_recursive_types(E)]
pub struct EffectSender<E> {
    tx: ChannelSender<EffectBatch<E>>,
}

/// The handle through which the executing context takes effects off the bus.
#[verifier::reject_recursive_types(E)]
pub struct EffectReceiver<E> {
    rx: ChannelReceiver<EffectBatch<E>>,
    signals: SignalLog,
}

/// Both ends of the bus.
#[verifier::reject_recursive_types(E)]
pub struct EffectBus<E> {
    pub effect_sender: EffectSender<E>,
    pub effect_receiver: EffectReceiver<E>,
}

/// `batch` holds exactly `effects`, in order, and asks for a completion signal
/// exactly when `signalled`.
pub open spec fn batch_holds<E>(batch: EffectBatch<E>, effects: Seq<E>, signalled: bool) -> bool {
    batch.effects@ == effects && (batch.completion is Some) == signalled
}

impl<E> EffectBus<E> {
    /// A new bus, with nothing sent through it and nothing taken off it yet.
    pub fn new() -> (bus: Self)
        ensures
            bus.effect_sender.sent() == Seq::<EffectBatch<E>>::empty(),
            bus.effect_receiver.polls() == Seq::<Option<EffectBatch<E>>>::empty(),
            bus.effect_receiver.signals() == Seq::<Option<oneshot::Sender<()>>>::empty(),
    {
        let (tx, rx) = new_std_channel();
        EffectBus {
            effect_sender: EffectSender { tx },
            effect_receiver: EffectReceiver { rx, signals: SignalLog::new() },
        }
    }
}

impl<E> Clone for EffectSender<E> {
    /// Another handle on the same channel, which has sent nothing yet.
    fn clone(&self) -> (r: Self)
        ensures
            r.sent() == Seq::<EffectBatch<E>>::empty(),
    {
        EffectSender { tx: clone_std_sender(&self.tx) }
    }
}

impl<E> EffectSender<E> {
    /// The batches that the channel accepted from this handle, oldest first.
    pub closed spec fn sent(&self) -> Seq<EffectBatch<E>> {
        self.tx.sent()
    }

    /// This handle after the channel accepted `batch` from it.
    pub closed spec fn accepted(self, batch: EffectBatch<E>) -> Self {
        EffectSender { tx: self.tx.accepted(batch) }
    }

    /// Recording an accepted batch adds it to the record and keeps the channel.
    pub proof fn lemma_accepted_records(sender: Self, batch: EffectBatch<E>)
        ensures
            sender.accepted(batch).sent() == sender.sent().push(batch),
    {
        ChannelSender::lemma_accepted(sender.tx, batch);
    }

    /// Puts a batch on the bus. On success the batch is recorded as sent; a batch
    /// that could not be delivered, because the receiving end is gone, comes back
    /// unchanged and nothing is recorded.
    pub fn send_batch(&mut self, batch: EffectBatch<E>) -> (r: Result<(), EffectBatch<E>>)
        ensures
            match r {
                Ok(()) => *final(self) == old(self).accepted(batch),
                Err(back) => back == batch && *final(self) == *old(self),
            },
    {
        std_send(&mut self.tx, batch)
    }

    /// Sends one effect, as a batch of its own with no completion signal. An effect
    /// that could not be delivered comes back.
    pub fn send(&mut self, effect: E) -> (r: Result<(), E>)
        ensures
            match r {
                Ok(()) => exists|b: EffectBatch<E>|
                    #[trigger] batch_holds(b, seq![effect], false) && *final(self) == old(self).accepted(b),
                Err(back) => back == effect && *final(self) == *old(self),
            },
    {
        let mut effects: Vec<E> = Vec::new();
        effects.push(effect);
        let batch = EffectBatch { effects, completion: None };
        let ghost handed = batch;
        assert(batch_holds(handed, seq![effect], false));
        match self.send_batch(batch) {
            Ok(()) => Ok(()),
            Err(batch) => {
                let mut returned = batch.effects;
                assert(returned@ == seq![effect]);
                let back = returned.pop().unwrap();
                Err(back)
            },
        }
    }

    /// Sends several effects as one batch: they are executed one after another, with
    /// no other effect between them. Effects that could not be delivered come back.
    pub fn send_multiple(&mut self, effects: Vec<E>) -> (r: Result<(), Vec<E>>)
        ensures
            match r {
                Ok(()) => exists|b: EffectBatch<E>|
                    #[trigger] batch_holds(b, effects@, false) && *final(self) == old(self).accepted(b),
                Err(back) => back@ == effects@ && *final(self) == *old(self),
            },
    {
        let batch = EffectBatch { effects, completion: None };
        let ghost handed = batch;
        assert(batch_holds(handed, effects@, false));
        match self.send_batch(batch) {
            Ok(()) => Ok(()),
            Err(batch) => Err(batch.effects),
        }
    }

    /// Sends one effect together with a completion signal, and returns the receiver
    /// that fires once the effect has been executed. An effect that could not be
    /// delivered comes back.
    pub fn send_blocking(&mut self, effect: E) -> (r: Result<oneshot::Receiver<()>, E>)
        ensures
            match r {
                Ok(_) => exists|b: EffectBatch<E>|
                    #[trigger] batch_holds(b, seq![effect], true) && *final(self) == old(self).accepted(b),
                Err(back) => back == effect && *final(self) == *old(self),
            },
    {
        let (done_tx, done_rx) = new_oneshot();
        let mut effects: Vec<E> = Vec::new();
        effects.push(effect);
        let batch = EffectBatch { effects, completion: Some(done_tx) };
        let ghost handed = batch;
        assert(batch_holds(handed, seq![effect], true));
        match self.send_batch(batch) {
            Ok(()) => Ok(done_rx),
            Err(batch) => {
                let mut returned = batch.effects;
                assert(returned@ == seq![effect]);
                let back = returned.pop().unwrap();
                Err(back)
            },
        }
    }
}

impl<E> EffectReceiver<E> {
    /// What each poll of this receiver returned, oldest first.
    pub closed spec fn polls(&self) -> Seq<Option<EffectBatch<E>>> {
        self.rx.polls()
    }

    /// This receiver after a poll that returned `polled`.
    pub closed spec fn polled(self, polled: Option<EffectBatch<E>>) -> Self {
        EffectReceiver { rx: self.rx.polled(polled), ..self }
    }

    /// The completion signals of the batches handled, oldest first: for each batch, the
    /// sender it carried (handed to the send that fires it), or `None` when it asked
    /// for no signal.
    pub closed spec fn signals(&self) -> Seq<Option<oneshot::Sender<()>>> {
        self.signals.signals()
    }

    /// This receiver after signalling the completion `completion` of a batch.
    pub closed spec fn signalled(self, completion: Option<oneshot::Sender<()>>) -> Self {
        EffectReceiver { signals: self.signals.signalled(completion), ..self }
    }

    /// Signals that a batch has been executed: its completion sender, if it has one,
    /// is fired. A waiter that has gone away is no error: nobody is waiting any more.
    /// The signal is recorded.
    pub fn complete(&mut self, completion: Option<oneshot::Sender<()>>)
        ensures
            *final(self) == old(self).signalled(completion),
    {
        match completion {
            Some(done) => oneshot_send(&mut self.signals, done),
            None => self.signals.no_signal(),
        }
    }

    /// Recording a poll or a signal adds one entry to its own record and leaves the
    /// other record as it was.
    pub proof fn lemma_receiver_records(
        receiver: Self,
        polled: Option<EffectBatch<E>>,
        completion: Option<oneshot::Sender<()>>,
    )
        ensures
            receiver.polled(polled).polls() == receiver.polls().push(polled),
            receiver.polled(polled).signals() == receiver.signals(),
            receiver.signalled(completion).signals() == receiver.signals().push(completion),
            receiver.signalled(completion).polls() == receiver.polls(),
    {
        ChannelReceiver::lemma_polled(receiver.rx, polled);
        SignalLog::lemma_signalled(receiver.signals, completion);
    }

    /// The next batch waiting on the bus, without blocking; `None` when the bus is
    /// empty for now. What came back is recorded.
    pub fn next_effect(&mut self) -> (r: Option<EffectBatch<E>>)
        ensures
            *final(self) == old(self).polled(r),
    {
        std_try_recv(&mut self.rx)
    }
}

/// Sending one effect: when `send` reports success, the channel accepted exactly one
/// batch from the handle, holding exactly that effect and asking for no signal, and
/// nothing else; when it fails, the effect comes back and nothing was accepted.
pub proof fn law_send_hands_over_exactly_the_effect<E>()
    ensures
        forall|s: &mut EffectSender<E>, effect: E, r: Result<(), E>|
            #[trigger] call_ensures(EffectSender::<E>::send, (s, effect), r) ==> match r {
                Ok(()) => {
                    &&& final(s).sent().len() == s.sent().len() + 1
                    &&& final(s).sent().drop_last() == s.sent()
                    &&& final(s).sent().last().effects@ == seq![effect]
                    &&& final(s).sent().last().completion is None
                },
                Err(back) => back == effect && final(s).sent() == s.sent(),
            },
{
    assert forall|s: &mut EffectSender<E>, effect: E, r: Result<(), E>|
        #[trigger] call_ensures(EffectSender::<E>::send, (s, effect), r) implies match r {
            Ok(()) => {
                &&& final(s).sent().len() == s.sent().len() + 1
                &&& final(s).sent().drop_last() == s.sent()
                &&& final(s).sent().last().effects@ == seq![effect]
                &&& final(s).sent().last().completion is None
            },
            Err(back) => back == effect && final(s).sent() == s.sent(),
        } by {
        if r is Ok {
            let b = choose|b: EffectBatch<E>| #[trigger] batch_holds(b, seq![effect], false) && *final(s) == s.accepted(b);
            EffectSender::lemma_accepted_records(*s, b);
            assert(final(s).sent().drop_last() =~= s.sent());
        }
    }
}

/// Sending several effects: when `send_multiple` reports success, the channel accepted
/// exactly one batch from the handle, holding exactly the effects given, in order,
/// none left out, and asking for no signal; when it fails, the effects come back.
pub proof fn law_send_multiple_hands_over_exactly_the_effects<E>()
    ensures
        forall|s: &mut EffectSender<E>, effects: Vec<E>, r: Result<(), Vec<E>>|
            #[trigger] call_ensures(EffectSender::<E>::send_multiple, (s, effects), r) ==> match r {
                Ok(()) => {
                    &&& final(s).sent().len() == s.sent().len() + 1
                    &&& final(s).sent().drop_last() == s.sent()
                    &&& final(s).sent().last().effects@ == effects@
                    &&& final(s).sent().last().completion is None
                },
                Err(back) => back@ == effects@ && final(s).sent() == s.sent(),
            },
{
    assert forall|s: &mut EffectSender<E>, effects: Vec<E>, r: Result<(), Vec<E>>|
        #[trigger] call_ensures(EffectSender::<E>::send_multiple, (s, effects), r) implies match r {
            Ok(()) => {
                &&& final(s).sent().len() == s.sent().len() + 1
                &&& final(s).sent().drop_last() == s.sent()
                &&& final(s).sent().last().effects@ == effects@
                &&& final(s).sent().last().completion is None
            },
            Err(back) => back@ == effects@ && final(s).sent() == s.sent(),
        } by {
        if r is Ok {
            let b = choose|b: EffectBatch<E>| #[trigger] batch_holds(b, effects@, false) && *final(s) == s.accepted(b);
            EffectSender::lemma_accepted_records(*s, b);
            assert(final(s).sent().drop_last() =~= s.sent());
        }
    }
}

/// Sending with a completion signal: on success the channel accepted exactly one batch,
/// holding exactly that effect and carrying a completion sender; on failure the effect
/// comes back.
pub proof fn law_send_blocking_hands_over_the_effect_and_its_signal<E>()
    ensures
        forall|s: &mut EffectSender<E>, effect: E, r: Result<oneshot::Receiver<()>, E>|
            #[trigger] call_ensures(EffectSender::<E>::send_blocking, (s, effect), r) ==> match r {
                Ok(_) => {
                    &&& final(s).sent().len() == s.sent().len() + 1
                    &&& final(s).sent().drop_last() == s.sent()
                    &&& final(s).sent().last().effects@ == seq![effect]
                    &&& final(s).sent().last().completion is Some
                },
                Err(back) => back == effect && final(s).sent() == s.sent(),
            },
{
    assert forall|s: &mut EffectSender<E>, effect: E, r: Result<oneshot::Receiver<()>, E>|
        #[trigger] call_ensures(EffectSender::<E>::send_blocking, (s, effect), r) implies match r {
            Ok(_) => {
                &&& final(s).sent().len() == s.sent().len() + 1
                &&& final(s).sent().drop_last() == s.sent()
                &&& final(s).sent().last().effects@ == seq![effect]
                &&& final(s).sent().last().completion is Some
            },
            Err(back) => back == effect && final(s).sent() == s.sent(),
        } by {
        if r is Ok {
            let b = choose|b: EffectBatch<E>| #[trigger] batch_holds(b, seq![effect], true) && *final(s) == s.accepted(b);
            EffectSender::lemma_accepted_records(*s, b);
            assert(final(s).sent().drop_last() =~= s.sent());
        }
    }
}

/// Polling: `next_effect` returns exactly what the channel handed over, which is what
/// the poll record gains, and fires no completion signal; the only signals are those
/// given when a batch is completed.
pub proof fn law_poll_returns_what_the_channel_gave_and_fires_nothing<E>()
    ensures
        forall|r: &mut EffectReceiver<E>, polled: Option<EffectBatch<E>>|
            #[trigger] call_ensures(EffectReceiver::<E>::next_effect, (r,), polled) ==> {
                &&& final(r).polls() == r.polls().push(polled)
                &&& final(r).signals() == r.signals()
            },
{
    assert forall|r: &mut EffectReceiver<E>, polled: Option<EffectBatch<E>>|
        #[trigger] call_ensures(EffectReceiver::<E>::next_effect, (r,), polled) implies {
            &&& final(r).polls() == r.polls().push(polled)
            &&& final(r).signals() == r.signals()
        } by {
        EffectReceiver::lemma_receiver_records(*r, polled, None);
    }
}

/// Completing a batch gives exactly that batch's signal and takes nothing off the bus:
/// the poll record, and so every batch still waiting, is left as it was.
pub proof fn law_complete_signals_and_takes_nothing<E>()
    ensures
        forall|r: &mut EffectReceiver<E>, completion: Option<oneshot::Sender<()>>|
            #[trigger] call_ensures(EffectReceiver::<E>::complete, (r, completion), ()) ==> {
                &&& final(r).signals() == r.signals().push(completion)
                &&& final(r).polls() == r.polls()
            },
{
    assert forall|r: &mut EffectReceiver<E>, completion: Option<oneshot::Sender<()>>|
        #[trigger] call_ensures(EffectReceiver::<E>::complete, (r, completion), ()) implies {
            &&& final(r).signals() == r.signals().push(completion)
            &&& final(r).polls() == r.polls()
        } by {
        EffectReceiver::lemma_receiver_records(*r, None, completion);
    }
}

} // verus!
