use vstd::prelude::*;

verus! {

/// A change that reaches the parameter values through `flush`.
#[derive(Debug)]
pub enum ParamEvent<V> {
    /// Set the parameter with this id to this value.
    SetValue { param_id: u32, value: V },
    /// Any other event of the stream (notes, transport); it changes no value.
    Other,
}

/// The values after one event: a set on a known id replaces that value.
pub open spec fn apply_event<V>(vals: Seq<V>, e: ParamEvent<V>) -> Seq<V> {
    match e {
        ParamEvent::SetValue { param_id, value } => {
            if param_id < vals.len() {
                vals.update(param_id as int, value)
            } else {
                vals
            }
        },
        ParamEvent::Other => vals,
    }
}

/// The values after a batch of events, applied in order.
pub open spec fn apply_events<V>(vals: Seq<V>, evs: Seq<ParamEvent<V>>) -> Seq<V>
    decreases evs.len(),
{
    if evs.len() == 0 {
        vals
    } else {
        apply_event(apply_events(vals, evs.drop_last()), evs.last())
    }
}

/// The value of the last event of the batch that sets `id`, if any does.
pub open spec fn last_write<V>(evs: Seq<ParamEvent<V>>, id: int) -> Option<V>
    decreases evs.len(),
{
    if evs.len() == 0 {
        None
    } else {
        match evs.last() {
            ParamEvent::SetValue { param_id, value } if param_id == id => Some(value),
            _ => last_write(evs.drop_last(), id),
        }
    }
}

/// The value that `id` holds after the batch, when it held `before`.
pub open spec fn value_after<V>(before: V, evs: Seq<ParamEvent<V>>, id: int) -> V {
    match last_write(evs, id) {
        Some(v) => v,
        None => before,
    }
}

/// Last write wins: after a batch, each known id holds the value of the last
/// event that set it, or its old value where no event of the batch set it.
/// Nothing else changes, and the number of values stays the same.
pub proof fn lemma_last_write_wins<V>(vals: Seq<V>, evs: Seq<ParamEvent<V>>)
    ensures
        apply_events(vals, evs).len() == vals.len(),
        forall|id: int|
            0 <= id < vals.len() ==> #[trigger] apply_events(vals, evs)[id] == value_after(
                vals[id],
                evs,
                id,
            ),
    decreases evs.len(),
{
    if evs.len() > 0 {
        lemma_last_write_wins(vals, evs.drop_last());
    }
}

/// The current values of the parameters, indexed by parameter id.
pub struct ParamValues<V> {
    values: Vec<V>,
}

impl<V: Copy> ParamValues<V> {
    pub closed spec fn view(&self) -> Seq<V> {
        self.values@
    }

    /// `count` parameters, each at `initial`.
    pub fn new(count: u32, initial: V) -> (r: Self)
        ensures
            r.view() == Seq::new(count as nat, |_i: int| initial),
    {
        let mut values: Vec<V> = Vec::new();
        let mut i: u32 = 0;
        while i < count
            invariant
                i <= count,
                values@ == Seq::new(i as nat, |_j: int| initial),
            decreases count - i,
        {
            values.push(initial);
            i += 1;
        }
        ParamValues { values }
    }

    /// A copy of these values.
    pub fn duplicate(&self) -> (r: Self)
        ensures
            r.view() == self.view(),
    {
        let mut values: Vec<V> = Vec::new();
        let mut i: usize = 0;
        while i < self.values.len()
            invariant
                i <= self.values.len(),
                values@ == self.values@.subrange(0, i as int),
            decreases self.values.len() - i,
        {
            values.push(self.values[i]);
            i += 1;
            assert(values@ =~= self.values@.subrange(0, i as int));
        }
        assert(values@ =~= self.values@);
        ParamValues { values }
    }

    /// Copies `other` over these values, in place.
    pub fn overwrite(&mut self, other: &Self)
        requires
            old(self).view().len() == other.view().len(),
        ensures
            final(self).view() == other.view(),
    {
        let mut i: usize = 0;
        while i < other.values.len()
            invariant
                i <= other.values@.len(),
                self.values@.len() == other.values@.len(),
                forall|j: int| 0 <= j < i ==> self.values@[j] == other.values@[j],
            decreases other.values@.len() - i,
        {
            self.values.set(i, other.values[i]);
            i += 1;
        }
        assert(self.values@ =~= other.values@);
    }

    /// The number of parameters.
    pub fn count(&self) -> (r: usize)
        ensures
            r == self.view().len(),
    {
        self.values.len()
    }

    /// The value of the parameter `param_id`, or `None` for an unknown id.
    pub fn get(&self, param_id: u32) -> (r: Option<V>)
        ensures
            r == (if param_id < self.view().len() {
                Some(self.view()[param_id as int])
            } else {
                None
            }),
    {
        if (param_id as usize) < self.values.len() {
            Some(self.values[param_id as usize])
        } else {
            None
        }
    }

    /// Applies one event.
    pub fn apply(&mut self, event: &ParamEvent<V>)
        ensures
            final(self).view() == apply_event(old(self).view(), *event),
    {
        match event {
            ParamEvent::SetValue { param_id, value } => {
                if (*param_id as usize) < self.values.len() {
                    self.values.set(*param_id as usize, *value);
                }
            },
            ParamEvent::Other => {},
        }
    }

    /// Applies a time-ordered batch of events in order: for each id, the last
    /// event that sets it wins; events on unknown ids are ignored.
    pub fn flush(&mut self, events: &[ParamEvent<V>])
        ensures
            final(self).view() == apply_events(old(self).view(), events@),
            final(self).view().len() == old(self).view().len(),
            forall|id: int|
                0 <= id < old(self).view().len() ==> #[trigger] final(self).view()[id]
                    == value_after(old(self).view()[id], events@, id),
    {
        let mut i: usize = 0;
        while i < events.len()
            invariant
                i <= events@.len(),
                self.view() == apply_events(old(self).view(), events@.subrange(0, i as int)),
            decreases events@.len() - i,
        {
            self.apply(&events[i]);
            i += 1;
            assert(events@.subrange(0, i as int).drop_last() =~= events@.subrange(
                0,
                i - 1 as int,
            ));
        }
        assert(events@.subrange(0, i as int) =~= events@);
        proof {
            lemma_last_write_wins(old(self).view(), events@);
        }
    }
}

} // verus!
