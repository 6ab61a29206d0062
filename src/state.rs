//! The per-action state and the mapper that updates it from samples.
use vstd::prelude::*;

use crate::classify::{batch_samples, classify, InputBatch};
use crate::input_map::{default_bindings, InputMap};
use crate::scalar::Scalar;
use crate::types::{InputMappable, InputSample, InputType, InputUpdateEvent};

verus! {

/// The last value stored for each action, with the binding table.
///
/// Each value is a magnitude and whether it came from a held (discrete)
/// source; values persist until a later sample for the same action.
pub struct Inputs {
    pub direction_up: (Scalar, bool),
    pub direction_down: (Scalar, bool),
    pub direction_left: (Scalar, bool),
    pub direction_right: (Scalar, bool),
    pub look_delta_left: (Scalar, bool),
    pub look_delta_right: (Scalar, bool),
    pub look_delta_up: (Scalar, bool),
    pub look_delta_down: (Scalar, bool),
    pub input_maps: InputMap,
}

/// The value a sample stores: its magnitude and whether it is discrete.
pub open spec fn stored_value(s: InputSample) -> (Scalar, bool) {
    (s.magnitude, s.discrete)
}

/// The per-action values after feeding `samples` in order to a state holding
/// `start`: each bound sample overwrites its action's value, unbound ones are
/// passed over.
pub open spec fn stored_after(
    bindings: Map<InputType, InputMappable>,
    start: Map<InputMappable, (Scalar, bool)>,
    samples: Seq<InputSample>,
) -> Map<InputMappable, (Scalar, bool)>
    decreases samples.len(),
{
    if samples.len() == 0 {
        start
    } else {
        let prev = stored_after(bindings, start, samples.drop_last());
        let s = samples.last();
        if bindings.contains_key(s.input_type) {
            prev.insert(bindings[s.input_type], stored_value(s))
        } else {
            prev
        }
    }
}

/// The update events for `samples`: one per bound sample, in order.
pub open spec fn events_for(
    bindings: Map<InputType, InputMappable>,
    samples: Seq<InputSample>,
) -> Seq<InputUpdateEvent>
    decreases samples.len(),
{
    if samples.len() == 0 {
        Seq::empty()
    } else {
        let prev = events_for(bindings, samples.drop_last());
        let s = samples.last();
        if bindings.contains_key(s.input_type) {
            prev.push(InputUpdateEvent { input_event: bindings[s.input_type] })
        } else {
            prev
        }
    }
}

impl Inputs {
    /// The value stored for `action`.
    pub open spec fn slot(&self, action: InputMappable) -> (Scalar, bool) {
        match action {
            InputMappable::DirectionUp => self.direction_up,
            InputMappable::DirectionDown => self.direction_down,
            InputMappable::DirectionLeft => self.direction_left,
            InputMappable::DirectionRight => self.direction_right,
            InputMappable::LookDeltaLeft => self.look_delta_left,
            InputMappable::LookDeltaRight => self.look_delta_right,
            InputMappable::LookDeltaUp => self.look_delta_up,
            InputMappable::LookDeltaDown => self.look_delta_down,
        }
    }

    /// The stored values of all actions.
    pub open spec fn slots(&self) -> Map<InputMappable, (Scalar, bool)> {
        Map::new(|a: InputMappable| true, |a: InputMappable| self.slot(a))
    }

    /// The value stored for `action`.
    pub fn value(&self, action: InputMappable) -> (r: (Scalar, bool))
        ensures
            r == self.slot(action),
    {
        match action {
            InputMappable::DirectionUp => self.direction_up,
            InputMappable::DirectionDown => self.direction_down,
            InputMappable::DirectionLeft => self.direction_left,
            InputMappable::DirectionRight => self.direction_right,
            InputMappable::LookDeltaLeft => self.look_delta_left,
            InputMappable::LookDeltaRight => self.look_delta_right,
            InputMappable::LookDeltaUp => self.look_delta_up,
            InputMappable::LookDeltaDown => self.look_delta_down,
        }
    }

    fn store(&mut self, action: InputMappable, value: (Scalar, bool))
        ensures
            final(self).slots() == old(self).slots().insert(action, value),
            final(self).input_maps == old(self).input_maps,
    {
        match action {
            InputMappable::DirectionUp => self.direction_up = value,
            InputMappable::DirectionDown => self.direction_down = value,
            InputMappable::DirectionLeft => self.direction_left = value,
            InputMappable::DirectionRight => self.direction_right = value,
            InputMappable::LookDeltaLeft => self.look_delta_left = value,
            InputMappable::LookDeltaRight => self.look_delta_right = value,
            InputMappable::LookDeltaUp => self.look_delta_up = value,
            InputMappable::LookDeltaDown => self.look_delta_down = value,
        }
        assert(self.slots() =~= old(self).slots().insert(action, value));
    }

    /// Maps one sample. When its input type is bound, the action's value
    /// becomes the sample's magnitude and discreteness and the action's update
    /// event is returned; an unbound sample changes nothing and yields `None`.
    pub fn apply(&mut self, sample: &InputSample) -> (r: Option<InputUpdateEvent>)
        ensures
            final(self).input_maps == old(self).input_maps,
            old(self).input_maps@.contains_key(sample.input_type) ==> {
                let action = old(self).input_maps@[sample.input_type];
                &&& r == Some(InputUpdateEvent { input_event: action })
                &&& final(self).slot(action) == stored_value(*sample)
                &&& final(self).slots() == old(self).slots().insert(action, stored_value(*sample))
            },
            !old(self).input_maps@.contains_key(sample.input_type) ==> {
                &&& r == None::<InputUpdateEvent>
                &&& *final(self) == *old(self)
            },
    {
        match self.input_maps.get(&sample.input_type) {
            Some(action) => {
                self.store(action, (sample.magnitude, sample.discrete));
                assert(self.slots()[action] == self.slot(action));
                Some(InputUpdateEvent { input_event: action })
            },
            None => None,
        }
    }

    /// Maps `samples` in order: the stored values become those of
    /// `stored_after`, and one update event per bound sample is appended to
    /// `events`.
    pub fn dispatch(&mut self, samples: &Vec<InputSample>, events: &mut Vec<InputUpdateEvent>)
        ensures
            final(self).input_maps == old(self).input_maps,
            final(self).slots() == stored_after(
                old(self).input_maps@,
                old(self).slots(),
                samples@,
            ),
            final(events)@ == old(events)@ + events_for(old(self).input_maps@, samples@),
    {
        let ghost bindings = self.input_maps@;
        let ghost start = self.slots();
        let ghost start_events = events@;
        let mut i: usize = 0;
        while i < samples.len()
            invariant
                i <= samples@.len(),
                self.input_maps@ == bindings,
                self.input_maps == old(self).input_maps,
                self.slots() == stored_after(bindings, start, samples@.subrange(0, i as int)),
                events@ == start_events + events_for(bindings, samples@.subrange(0, i as int)),
            decreases samples@.len() - i,
        {
            assert(samples@.subrange(0, i + 1).drop_last() =~= samples@.subrange(0, i as int));
            match self.apply(&samples[i]) {
                Some(event) => {
                    events.push(event);
                    assert(events@ =~= start_events + events_for(
                        bindings,
                        samples@.subrange(0, i + 1),
                    ));
                },
                None => {},
            }
            i = i + 1;
        }
        assert(samples@.subrange(0, i as int) =~= samples@);
    }
}

/// One tick of the pipeline: classifies `batch`, then maps the samples in
/// order into `inputs`, appending one update event per bound sample.
pub fn parse_input(batch: &InputBatch, inputs: &mut Inputs, events: &mut Vec<InputUpdateEvent>)
    ensures
        final(inputs).input_maps == old(inputs).input_maps,
        final(inputs).slots() == stored_after(
            old(inputs).input_maps@,
            old(inputs).slots(),
            batch_samples(*batch),
        ),
        final(events)@ == old(events)@ + events_for(
            old(inputs).input_maps@,
            batch_samples(*batch),
        ),
{
    let samples = classify(batch);
    inputs.dispatch(&samples, events);
}

impl Default for Inputs {
    /// Every action at zero and not held, with the default bindings.
    fn default() -> (r: Inputs)
        ensures
            forall|a: InputMappable| #[trigger] r.slot(a) == (Scalar { bits: 0 }, false),
            r.input_maps@ == default_bindings(),
    {
        Inputs {
            direction_up: (Scalar::zero(), false),
            direction_down: (Scalar::zero(), false),
            direction_left: (Scalar::zero(), false),
            direction_right: (Scalar::zero(), false),
            look_delta_left: (Scalar::zero(), false),
            look_delta_right: (Scalar::zero(), false),
            look_delta_up: (Scalar::zero(), false),
            look_delta_down: (Scalar::zero(), false),
            input_maps: InputMap::default_bindings(),
        }
    }
}

/// An unbound sample is inert: appending a sample whose input type has no
/// binding leaves both the stored values and the event sequence as they were.
pub proof fn lemma_unbound_sample_is_inert(
    bindings: Map<InputType, InputMappable>,
    start: Map<InputMappable, (Scalar, bool)>,
    samples: Seq<InputSample>,
    sample: InputSample,
)
    requires
        !bindings.contains_key(sample.input_type),
    ensures
        stored_after(bindings, start, samples.push(sample)) == stored_after(bindings, start, samples),
        events_for(bindings, samples.push(sample)) == events_for(bindings, samples),
{
    assert(samples.push(sample).drop_last() =~= samples);
}

/// Last write wins: when two samples in a row are bound to the same action,
/// that action ends up holding the second one's value, and each of the two
/// adds its own update event.
pub proof fn lemma_last_write_wins(
    bindings: Map<InputType, InputMappable>,
    start: Map<InputMappable, (Scalar, bool)>,
    samples: Seq<InputSample>,
    first: InputSample,
    second: InputSample,
)
    requires
        bindings.contains_key(first.input_type),
        bindings.contains_key(second.input_type),
        bindings[first.input_type] == bindings[second.input_type],
    ensures
        stored_after(bindings, start, samples.push(first).push(second))[bindings[first.input_type]]
            == stored_value(second),
        events_for(bindings, samples.push(first).push(second)) == events_for(bindings, samples)
            + seq![
            InputUpdateEvent { input_event: bindings[first.input_type] },
            InputUpdateEvent { input_event: bindings[first.input_type] },
        ],
{
    let both = samples.push(first).push(second);
    assert(both.drop_last() =~= samples.push(first));
    assert(samples.push(first).drop_last() =~= samples);
    let ev = InputUpdateEvent { input_event: bindings[first.input_type] };
    assert(events_for(bindings, samples.push(first)) == events_for(bindings, samples).push(ev));
    assert(events_for(bindings, both) == events_for(bindings, samples.push(first)).push(ev));
    assert(events_for(bindings, both) =~= events_for(bindings, samples) + seq![
        InputUpdateEvent { input_event: bindings[first.input_type] },
        InputUpdateEvent { input_event: bindings[first.input_type] },
    ]);
}

} // verus!
