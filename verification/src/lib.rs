//! An application context: a model, shared resources, and a bus of effects that are
//! executed on the context in the order they were sent.
mod channel;
mod deferred;
mod effect_bus;
mod resource;
mod spawn;
mod syzygy;

pub use deferred::{defer, Deferred};
pub use effect_bus::{
    batch_holds, law_complete_signals_and_takes_nothing, law_poll_returns_what_the_channel_gave_and_fires_nothing,
    law_send_blocking_hands_over_the_effect_and_its_signal, law_send_hands_over_exactly_the_effect,
    law_send_multiple_hands_over_exactly_the_effects, EffectBatch, EffectBus, EffectReceiver, EffectSender,
};
pub use resource::{
    insert_all, lemma_last_write_to_a_key, lemma_last_write_wins, lemma_read_after_write,
    lemma_untouched_key, Resources,
};
pub use spawn::{AsyncTaskError, RayonPool, SpawnTaskError, TokioHandle};
pub use syzygy::{
    batch_steps, handling_trace, is_index, lemma_build_keeps_what_was_given, lemma_builder_series,
    lemma_built_resource_found, lemma_bus_steps_keep_the_rest, lemma_model_change_keeps_the_rest,
    Effect, HandlingStep, Syzygy, SyzygyBuilder,
};
