//! Every model is loaded at most once.  The registry keeps, for each model,
//! whether anyone has set out to load it and what came of that; whoever asks
//! for a model is told to load it, to wait for the one who does, or what the
//! outcome was.  A failure is kept like a success: a model that could not be
//! loaded is not loaded again.

use vstd::prelude::*;
use std::sync::Arc;
use crate::error::{EmbedderError, EmbedderErrorView};
use crate::model::{CanTransform, EmbeddingModel, MODEL_COUNT};

verus! {

/// What the registry knows of one model.
#[derive(Debug)]
pub enum Slot<M> {
    /// Nobody has asked for the model.
    Vacant,
    /// Someone was told to load the model and has not reported back.
    Loading,
    /// The model was loaded, or could not be.
    Ready(Result<Arc<M>, EmbedderError>),
}

/// What the registry tells someone who asks for a model.
#[derive(Debug)]
pub enum Acquired<M> {
    /// Load the model, then report the outcome with [`Registry::complete`].
    Load,
    /// Someone else is loading the model: ask again later.
    Wait,
    /// The model, or why it could not be loaded.
    Ready(Result<Arc<M>, EmbedderError>),
}

/// A [`Slot`], with the model itself for a handle to it and texts as
/// sequences of characters.
pub enum SlotView<M> {
    Vacant,
    Loading,
    Ready(Result<M, EmbedderErrorView>),
}

/// An [`Acquired`], with the model itself for a handle to it and texts as
/// sequences of characters.
pub enum Reply<M> {
    Load,
    Wait,
    Ready(Result<M, EmbedderErrorView>),
}

/// The outcome of loading a model, with the model itself for a handle to it.
pub open spec fn outcome_view<M>(outcome: Result<Arc<M>, EmbedderError>) -> Result<
    M,
    EmbedderErrorView,
> {
    match outcome {
        Ok(handle) => Ok(*handle),
        Err(error) => Err(error@),
    }
}

/// What loading a model gave, with texts as sequences of characters.
pub open spec fn loaded_view<M>(loaded: Result<M, EmbedderError>) -> Result<
    M,
    EmbedderErrorView,
> {
    match loaded {
        Ok(model) => Ok(model),
        Err(error) => Err(error@),
    }
}

impl<M> View for Slot<M> {
    type V = SlotView<M>;

    open spec fn view(&self) -> SlotView<M> {
        match *self {
            Slot::Vacant => SlotView::Vacant,
            Slot::Loading => SlotView::Loading,
            Slot::Ready(outcome) => SlotView::Ready(outcome_view(outcome)),
        }
    }
}

impl<M> View for Acquired<M> {
    type V = Reply<M>;

    open spec fn view(&self) -> Reply<M> {
        match *self {
            Acquired::Load => Reply::Load,
            Acquired::Wait => Reply::Wait,
            Acquired::Ready(outcome) => Reply::Ready(outcome_view(outcome)),
        }
    }
}

/// What those who ask for `model` are given once loading it gave `outcome`:
/// the model, or that it could not be loaded, with what the failure says.
pub open spec fn answer<M>(model: EmbeddingModel, outcome: Result<M, EmbedderErrorView>) -> Result<
    M,
    EmbedderErrorView,
> {
    match outcome {
        Ok(loaded) => Ok(loaded),
        Err(error) => Err(
            EmbedderErrorView::ModelLoadError { name: model.name_spec(), error: error.message() },
        ),
    }
}

/// What becomes of the slots, and what is replied, when someone asks for
/// `model`.
pub open spec fn acquire_spec<M>(slots: Seq<SlotView<M>>, model: EmbeddingModel) -> (
    Seq<SlotView<M>>,
    Reply<M>,
) {
    match slots[model.index_spec()] {
        SlotView::Vacant => (slots.update(model.index_spec(), SlotView::Loading), Reply::Load),
        SlotView::Loading => (slots, Reply::Wait),
        SlotView::Ready(outcome) => (slots, Reply::Ready(answer(model, outcome))),
    }
}

/// What becomes of the slots, and what is replied, when someone reports that
/// loading `model` gave `loaded`.  The first outcome that is reported stays.
pub open spec fn complete_spec<M>(
    slots: Seq<SlotView<M>>,
    model: EmbeddingModel,
    loaded: Result<M, EmbedderErrorView>,
) -> (Seq<SlotView<M>>, Reply<M>) {
    match slots[model.index_spec()] {
        SlotView::Ready(outcome) => (slots, Reply::Ready(answer(model, outcome))),
        _ => (
            slots.update(model.index_spec(), SlotView::Ready(loaded)),
            Reply::Ready(answer(model, loaded)),
        ),
    }
}

/// What can happen to a registry.
pub enum Event<M> {
    /// Someone asks for a model.
    Acquire(EmbeddingModel),
    /// Someone reports what loading a model gave.
    Complete(EmbeddingModel, Result<M, EmbedderErrorView>),
}

impl<M> Event<M> {
    /// The model that the event is about.
    pub open spec fn model(self) -> EmbeddingModel {
        match self {
            Event::Acquire(model) => model,
            Event::Complete(model, _) => model,
        }
    }
}

/// What becomes of the slots, and what is replied, when `event` happens.
pub open spec fn step<M>(slots: Seq<SlotView<M>>, event: Event<M>) -> (Seq<SlotView<M>>, Reply<M>) {
    match event {
        Event::Acquire(model) => acquire_spec(slots, model),
        Event::Complete(model, loaded) => complete_spec(slots, model, loaded),
    }
}

/// The slots after the first `count` of `events` have happened to `slots`,
/// one after the other.
pub open spec fn state_after<M>(slots: Seq<SlotView<M>>, events: Seq<Event<M>>, count: int) -> Seq<
    SlotView<M>,
>
    decreases count,
{
    if count <= 0 {
        slots
    } else {
        step(state_after(slots, events, count - 1), events[count - 1]).0
    }
}

/// What is replied to the event with index `at`, when `events` happen to
/// `slots` one after the other.
pub open spec fn reply_to<M>(slots: Seq<SlotView<M>>, events: Seq<Event<M>>, at: int) -> Reply<M> {
    step(state_after(slots, events, at), events[at]).1
}

/// A slot that has left `Vacant` does not come back to it, and one that is
/// `Ready` stays as it is.
proof fn lemma_slot_settles<M>(
    slots: Seq<SlotView<M>>,
    events: Seq<Event<M>>,
    model: EmbeddingModel,
    from: int,
    to: int,
)
    requires
        slots.len() == MODEL_COUNT,
        0 <= from <= to <= events.len(),
    ensures
        state_after(slots, events, from).len() == MODEL_COUNT,
        state_after(slots, events, to).len() == MODEL_COUNT,
        !(state_after(slots, events, from)[model.index_spec()] is Vacant) ==> !(state_after(
            slots,
            events,
            to,
        )[model.index_spec()] is Vacant),
        state_after(slots, events, from)[model.index_spec()] is Ready ==> state_after(
            slots,
            events,
            to,
        )[model.index_spec()] == state_after(slots, events, from)[model.index_spec()],
    decreases to,
{
    if to == 0 {
    } else if from == to {
        lemma_slot_settles(slots, events, model, 0, to - 1);
    } else {
        lemma_slot_settles(slots, events, model, from, to - 1);
    }
}

/// A model is loaded once: when someone who asked for a model was told to
/// load it, nobody who asks for that model afterwards is told so, whatever
/// happens in between and in whatever order.
pub proof fn lemma_loaded_once<M>(
    slots: Seq<SlotView<M>>,
    events: Seq<Event<M>>,
    model: EmbeddingModel,
    first: int,
    later: int,
)
    requires
        slots.len() == MODEL_COUNT,
        0 <= first < later < events.len(),
        events[first] == Event::<M>::Acquire(model),
        events[later] == Event::<M>::Acquire(model),
        reply_to(slots, events, first) is Load,
    ensures
        !(reply_to(slots, events, later) is Load),
{
    lemma_slot_settles(slots, events, model, 0, first);
    lemma_slot_settles(slots, events, model, first + 1, later);
}

/// The first to ask for a model is told to load it: it is loaded, not just
/// never loaded twice.
pub proof fn lemma_first_to_ask_loads<M>(events: Seq<Event<M>>, model: EmbeddingModel, at: int)
    requires
        0 <= at < events.len(),
        events[at] == Event::<M>::Acquire(model),
        forall|before: int| 0 <= before < at ==> (#[trigger] events[before]).model() != model,
    ensures
        reply_to(all_vacant::<M>(), events, at) is Load,
{
    lemma_untouched_stays_vacant(events, model, at);
}

/// The slot of a model that no event was about is as it was at the start.
proof fn lemma_untouched_stays_vacant<M>(events: Seq<Event<M>>, model: EmbeddingModel, count: int)
    requires
        0 <= count <= events.len(),
        forall|before: int| 0 <= before < count ==> (#[trigger] events[before]).model() != model,
    ensures
        state_after(all_vacant::<M>(), events, count).len() == MODEL_COUNT,
        state_after(all_vacant::<M>(), events, count)[model.index_spec()] is Vacant,
    decreases count,
{
    if count > 0 {
        lemma_untouched_stays_vacant(events, model, count - 1);
        assert(events[count - 1].model() != model);
    }
}

/// Everyone is given the same: two replies that hold an outcome for one
/// model, whenever they were given and whether to someone who asked or to
/// someone who reported, hold the same outcome: the same model, or the same
/// failure.
pub proof fn lemma_same_outcome<M>(
    slots: Seq<SlotView<M>>,
    events: Seq<Event<M>>,
    first: int,
    later: int,
)
    requires
        slots.len() == MODEL_COUNT,
        0 <= first <= later < events.len(),
        events[first].model() == events[later].model(),
        reply_to(slots, events, first) is Ready,
        reply_to(slots, events, later) is Ready,
    ensures
        reply_to(slots, events, first) == reply_to(slots, events, later),
{
    let model = events[first].model();
    lemma_slot_settles(slots, events, model, 0, first);
    if first < later {
        lemma_slot_settles(slots, events, model, first + 1, later);
    }
}

/// A failure is replayed: once anyone was given the failure to load a model,
/// be it the one who reported it or one who asked, all who ask for that
/// model afterwards are given the same failure, and nobody is told to load
/// the model again.
pub proof fn lemma_failure_replayed<M>(
    slots: Seq<SlotView<M>>,
    events: Seq<Event<M>>,
    failed: int,
    at: int,
)
    requires
        slots.len() == MODEL_COUNT,
        0 <= failed < at < events.len(),
        reply_to(slots, events, failed) matches Reply::Ready(Err(_)),
        events[at] == Event::<M>::Acquire(events[failed].model()),
    ensures
        reply_to(slots, events, at) == reply_to(slots, events, failed),
{
    let model = events[failed].model();
    lemma_slot_settles(slots, events, model, 0, failed);
    lemma_slot_settles(slots, events, model, failed + 1, at);
}

/// What a failure says: when loading a model is reported to have failed
/// with `error`, and no outcome was reported before, the one who reports is
/// given the failure to load the model, under the name of the model and with
/// what `error` says.
pub proof fn lemma_failure_names_the_model<M>(
    slots: Seq<SlotView<M>>,
    events: Seq<Event<M>>,
    model: EmbeddingModel,
    error: EmbedderErrorView,
    at: int,
)
    requires
        slots.len() == MODEL_COUNT,
        0 <= at < events.len(),
        events[at] == Event::<M>::Complete(model, Err(error)),
        !(state_after(slots, events, at)[model.index_spec()] is Ready),
    ensures
        reply_to(slots, events, at) == Reply::<M>::Ready(
            Err(
                EmbedderErrorView::ModelLoadError {
                    name: model.name_spec(),
                    error: error.message(),
                },
            ),
        ),
{
}

/// `Arc::clone`: a second handle to the value that `handle` points to. The
/// value itself is not copied.
#[verifier::external_body]
fn share<M>(handle: &Arc<M>) -> (shared: Arc<M>)
    ensures
        shared == *handle,
{
    Arc::clone(handle)
}

/// The slots of all models, each model loaded at most once.
#[derive(Debug)]
pub struct Registry<M> {
    slots: [Slot<M>; MODEL_COUNT],
}

impl<M> View for Registry<M> {
    type V = Seq<SlotView<M>>;

    /// The slots by the index of their model.
    closed spec fn view(&self) -> Seq<SlotView<M>> {
        Seq::new(MODEL_COUNT as nat, |i: int| self.slots@[i]@)
    }
}

/// The slots before anyone has asked for a model.
pub open spec fn all_vacant<M>() -> Seq<SlotView<M>> {
    Seq::new(MODEL_COUNT as nat, |i: int| SlotView::Vacant)
}

impl<M> Registry<M> {
    /// A registry in which no model was asked for yet.
    pub fn new() -> (registry: Self)
        ensures
            registry@ == all_vacant::<M>(),
    {
        let registry = Registry { slots: [Slot::Vacant, Slot::Vacant] };
        assert(registry@ =~= all_vacant::<M>());
        registry
    }

    /// What a caller that asks for `model` is given: the memoized outcome,
    /// the handle to the model or what the failure to load it says.
    fn replay(model: EmbeddingModel, outcome: &Result<Arc<M>, EmbedderError>) -> (result: Result<
        Arc<M>,
        EmbedderError,
    >)
        ensures
            outcome_view(result) == answer(model, outcome_view(*outcome)),
    {
        match outcome {
            Ok(handle) => Ok(share(handle)),
            Err(error) => Err(
                EmbedderError::ModelLoadError { name: model.descriptor().name, error: error.message() },
            ),
        }
    }

    /// Asks for `model`.  The first to ask is told to load it; whoever asks
    /// before the outcome is reported is told to wait; after that everyone is
    /// given the outcome.
    pub fn acquire(&mut self, model: EmbeddingModel) -> (acquired: Acquired<M>)
        ensures
            old(self)@.len() == MODEL_COUNT,
            (final(self)@, acquired@) == acquire_spec(old(self)@, model),
    {
        let index = model.index();
        let acquired = match &self.slots[index] {
            Slot::Vacant => Acquired::Load,
            Slot::Loading => Acquired::Wait,
            Slot::Ready(outcome) => Acquired::Ready(Self::replay(model, outcome)),
        };
        if let Acquired::Load = acquired {
            self.slots[index] = Slot::Loading;
        }
        assert(self@ =~= acquire_spec(old(self)@, model).0);
        acquired
    }

    /// Reports what loading `model` gave, and returns what everyone who asks
    /// for the model is given from now on.  If an outcome was reported
    /// before, that one stays and `loaded` is dropped.
    pub fn complete(&mut self, model: EmbeddingModel, loaded: Result<M, EmbedderError>) -> (result:
        Result<Arc<M>, EmbedderError>)
        ensures
            old(self)@.len() == MODEL_COUNT,
            (final(self)@, Reply::Ready(outcome_view(result))) == complete_spec(
                old(self)@,
                model,
                loaded_view(loaded),
            ),
    {
        let index = model.index();
        if let Slot::Ready(outcome) = &self.slots[index] {
            let result = Self::replay(model, outcome);
            assert(self@ =~= old(self)@);
            return result;
        }
        let outcome = match loaded {
            Ok(model) => Ok(Arc::new(model)),
            Err(error) => Err(error),
        };
        let result = Self::replay(model, &outcome);
        self.slots[index] = Slot::Ready(outcome);
        assert(self@ =~= complete_spec(old(self)@, model, loaded_view(loaded)).0);
        result
    }
}

} // verus!
