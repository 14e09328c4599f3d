//! The outside types that the library carries, and the channel calls it makes.
use vstd::prelude::*;

verus! {

/// The sending half of a standard multi-producer channel.
#[verifier::external_type_specification]
#[verifier::external_body]
#[verifier::reject_recursive_types(T)]
pub struct ExStdSender<T>(std::sync::mpsc::Sender<T>);

/// The receiving half of a standard multi-producer channel.
#[verifier::external_type_specification]
#[verifier::external_body]
#[verifier::reject_recursive_types(T)]
pub struct ExStdReceiver<T>(std::sync::mpsc::Receiver<T>);

/// The sending half of a tokio one-shot channel.
#[verifier::external_type_specification]
#[verifier::external_body]
#[verifier::reject_recursive_types(T)]
pub struct ExOneshotSender<T>(tokio::sync::oneshot::Sender<T>);

/// The receiving half of a tokio one-shot channel.
#[verifier::external_type_specification]
#[verifier::external_body]
#[verifier::reject_recursive_types(T)]
pub struct ExOneshotReceiver<T>(tokio::sync::oneshot::Receiver<T>);

/// The error a tokio one-shot receiver yields when its sender went away unused; the
/// receiver's `Future` impl names it, so the receiver cannot be declared without it.
#[verifier::external_type_specification]
#[verifier::external_body]
pub struct ExOneshotRecvError(tokio::sync::oneshot::error::RecvError);

/// The sending half of a channel, with the record of every value the channel accepted
/// from it. Only the send below adds to the record.
#[verifier::reject_recursive_types(T)]
pub struct ChannelSender<T> {
    tx: std::sync::mpsc::Sender<T>,
    sent: Ghost<Seq<T>>,
}

/// The receiving half of a channel, with the record of what every poll of it returned.
/// Only the poll below adds to the record.
#[verifier::reject_recursive_types(T)]
pub struct ChannelReceiver<T> {
    rx: std::sync::mpsc::Receiver<T>,
    polls: Ghost<Seq<Option<T>>>,
}

/// The record of completion signals: for each handled batch, the one-shot sender that
/// was fired, or `None` where the batch asked for no signal. Only the fire below adds
/// a sender to it.
pub struct SignalLog {
    signals: Ghost<Seq<Option<tokio::sync::oneshot::Sender<()>>>>,
}

impl<T> ChannelSender<T> {
    /// The values the channel accepted from this handle, oldest first.
    pub closed spec fn sent(&self) -> Seq<T> {
        self.sent@
    }

    /// This handle after the channel accepted `value` from it.
    pub closed spec fn accepted(self, value: T) -> Self {
        ChannelSender { sent: Ghost(self.sent@.push(value)), ..self }
    }

    /// Accepting a value adds exactly that value to the record.
    pub proof fn lemma_accepted(sender: Self, value: T)
        ensures
            sender.accepted(value).sent() == sender.sent().push(value),
    {
    }
}

impl<T> ChannelReceiver<T> {
    /// What each poll of this handle returned, oldest first.
    pub closed spec fn polls(&self) -> Seq<Option<T>> {
        self.polls@
    }

    /// This handle after a poll that returned `polled`.
    pub closed spec fn polled(self, polled: Option<T>) -> Self {
        ChannelReceiver { polls: Ghost(self.polls@.push(polled)), ..self }
    }

    /// A poll adds exactly what it returned to the record.
    pub proof fn lemma_polled(receiver: Self, polled: Option<T>)
        ensures
            receiver.polled(polled).polls() == receiver.polls().push(polled),
    {
    }
}

impl SignalLog {
    /// An empty record.
    pub fn new() -> (log: Self)
        ensures
            log.signals() == Seq::<Option<tokio::sync::oneshot::Sender<()>>>::empty(),
    {
        SignalLog { signals: Ghost(Seq::empty()) }
    }

    /// The signals given, oldest first.
    pub closed spec fn signals(&self) -> Seq<Option<tokio::sync::oneshot::Sender<()>>> {
        self.signals@
    }

    /// This record after the signal `completion` was given.
    pub closed spec fn signalled(self, completion: Option<tokio::sync::oneshot::Sender<()>>) -> Self {
        SignalLog { signals: Ghost(self.signals@.push(completion)) }
    }

    /// Giving a signal adds exactly that signal to the record.
    pub proof fn lemma_signalled(log: Self, completion: Option<tokio::sync::oneshot::Sender<()>>)
        ensures
            log.signalled(completion).signals() == log.signals().push(completion),
    {
    }

    /// Records that a batch asked for no signal: nothing is fired.
    pub fn no_signal(&mut self)
        ensures
            *final(self) == old(self).signalled(None),
    {
        self.signals = Ghost(self.signals@.push(None));
    }
}

/// Calls `std::sync::mpsc::channel`: two fresh handles, with nothing sent or polled
/// yet. Nothing is stated of what the receiver will yield: that depends on every clone
/// of the sender, in whatever thread it lives.
#[verifier::external_body]
pub(crate) fn new_std_channel<T>() -> (r: (ChannelSender<T>, ChannelReceiver<T>))
    ensures
        r.0.sent() == Seq::<T>::empty(),
        r.1.polls() == Seq::<Option<T>>::empty(),
{
    let (tx, rx) = std::sync::mpsc::channel();
    (ChannelSender { tx, sent: Ghost(Seq::empty()) }, ChannelReceiver { rx, polls: Ghost(Seq::empty()) })
}

/// Calls `std::sync::mpsc::Sender::clone`: a second handle on the same channel, which
/// has sent nothing yet.
#[verifier::external_body]
pub(crate) fn clone_std_sender<T>(tx: &ChannelSender<T>) -> (r: ChannelSender<T>)
    ensures
        r.sent() == Seq::<T>::empty(),
{
    ChannelSender { tx: tx.tx.clone(), sent: Ghost(Seq::empty()) }
}

/// Calls `std::sync::mpsc::Sender::send` with `value`. When the channel accepts it,
/// the value is what the record gains; its documentation says that an error hands the
/// value back, so an `Err` holds exactly the value that was given, and nothing is
/// recorded. Whether the send succeeds depends on whether the receiver still exists,
/// which is left unsaid.
#[verifier::external_body]
pub(crate) fn std_send<T>(tx: &mut ChannelSender<T>, value: T) -> (r: Result<(), T>)
    ensures
        match r {
            Ok(()) => *final(tx) == old(tx).accepted(value),
            Err(back) => back == value && *final(tx) == *old(tx),
        },
{
    tx.tx.send(value).map_err(|e| e.0)
}

/// Calls `std::sync::mpsc::Receiver::try_recv`, without blocking, and turns its error
/// (empty or disconnected) into `None`. What comes back depends on the senders, in
/// other threads, so nothing is stated of it but that the record gains exactly it.
#[verifier::external_body]
pub(crate) fn std_try_recv<T>(rx: &mut ChannelReceiver<T>) -> (r: Option<T>)
    ensures
        *final(rx) == old(rx).polled(r),
{
    rx.rx.try_recv().ok()
}

/// Calls `tokio::sync::oneshot::channel`. Nothing is stated of the two halves.
#[verifier::external_body]
pub(crate) fn new_oneshot<T>() -> (
    tokio::sync::oneshot::Sender<T>,
    tokio::sync::oneshot::Receiver<T>,
) {
    tokio::sync::oneshot::channel()
}

/// Calls `tokio::sync::oneshot::Sender::send` with `()`, which fires the signal that
/// `done` belongs to, and records that `done` was fired. A receiver that has gone
/// away makes the send fail, which its source shows as no more than handing the value
/// back; nothing is waiting then.
#[verifier::external_body]
pub(crate) fn oneshot_send(log: &mut SignalLog, done: tokio::sync::oneshot::Sender<()>)
    ensures
        *final(log) == old(log).signalled(Some(done)),
{
    let _ = done.send(());
}

} // verus!
