use vstd::prelude::*;

verus! {

/// The last drag of one shape: the dragged entity, the value before the drag
/// began and the latest value. `O` is the type of the starting value and `N`
/// the type of the latest one.
pub struct LastDragged<O, N> {
    pub last: Option<(u64, O, N)>,
}

/// The drag after one more step of dragging `entity` from `old_value` to
/// `new_value`: the entity and latest value are replaced, the value from
/// before the first step is kept.
pub open spec fn drag_step<O, N>(last: Option<(u64, O, N)>, entity: u64, old_value: O, new_value: N) -> Option<(u64, O, N)> {
    Some(match last {
        Some((_, first, _)) => (entity, first, new_value),
        None => (entity, old_value, new_value),
    })
}

impl<O, N> LastDragged<O, N> {
    pub fn new() -> (d: Self)
        ensures
            d.last is None,
    {
        LastDragged { last: None }
    }

    /// Forgets the drag.
    pub fn reset(&mut self)
        ensures
            final(self).last is None,
    {
        self.last = None;
    }

    /// Records a drag step: the entity and the latest value are replaced, but
    /// the value from before the first step of the drag is kept.
    pub fn update(&mut self, entity: u64, old_value: O, new_value: N)
        ensures
            final(self).last == drag_step(old(self).last, entity, old_value, new_value),
    {
        let prev = self.last.take();
        match prev {
            Some((_, first, _)) => {
                self.last = Some((entity, first, new_value));
            },
            None => {
                self.last = Some((entity, old_value, new_value));
            },
        }
    }

    /// Takes the finished drag, if any.
    pub fn take(&mut self) -> (r: Option<(u64, O, N)>)
        ensures
            r == old(self).last,
            final(self).last is None,
    {
        self.last.take()
    }
}

/// However many steps a drag takes, it ends with the value from before its
/// first step and the value of its last step.
pub proof fn lemma_drag_keeps_first_and_last<O, N>(steps: Seq<(u64, O, N)>)
    requires
        steps.len() > 0,
    ensures
        drag_fold(None, steps) == Some((steps.last().0, steps[0].1, steps.last().2)),
    decreases steps.len(),
{
    if steps.len() > 1 {
        lemma_drag_keeps_first_and_last(steps.drop_last());
        assert(steps.drop_last()[0] == steps[0]);
    } else {
        assert(steps.drop_last().len() == 0);
        assert(drag_fold(None::<(u64, O, N)>, steps.drop_last()) == None::<(u64, O, N)>);
        assert(steps.last() == steps[0]);
    }
}

/// The drag after the steps `steps`, each (entity, value before, value after),
/// starting from `last`.
pub open spec fn drag_fold<O, N>(last: Option<(u64, O, N)>, steps: Seq<(u64, O, N)>) -> Option<(u64, O, N)>
    decreases steps.len(),
{
    if steps.len() == 0 {
        last
    } else {
        let s = steps.last();
        drag_step(drag_fold(last, steps.drop_last()), s.0, s.1, s.2)
    }
}

/// Vertex drags over several vertices: finished drags, and the drag in
/// progress (entity, start position, latest position). `P` is a position.
pub struct DragHistory<P> {
    pub drags: Vec<(u64, P, P)>,
    pub dragging: Option<(u64, P, P)>,
}

impl<P> View for DragHistory<P> {
    type V = (Seq<(u64, P, P)>, Option<(u64, P, P)>);

    open spec fn view(&self) -> (Seq<(u64, P, P)>, Option<(u64, P, P)>) {
        (self.drags@, self.dragging)
    }
}

impl<P> DragHistory<P> {
    pub fn new() -> (d: Self)
        ensures
            d@ == (Seq::<(u64, P, P)>::empty(), None::<(u64, P, P)>),
    {
        DragHistory { drags: Vec::new(), dragging: None }
    }

    /// Forgets all drags.
    pub fn reset(&mut self)
        ensures
            final(self)@ == (Seq::<(u64, P, P)>::empty(), None::<(u64, P, P)>),
    {
        self.drags = Vec::new();
        self.dragging = None;
    }

    /// Records a drag step of `entity`. A step of the vertex being dragged
    /// moves its latest position; a step of another vertex finishes the drag
    /// in progress and starts a new one.
    pub fn update(&mut self, entity: u64, old_position: P, new_position: P)
        ensures
            final(self)@ == history_step(old(self)@, (entity, old_position, new_position)),
    {
        let current = self.dragging.take();
        match current {
            Some((e, start, end)) => {
                if e == entity {
                    self.dragging = Some((e, start, new_position));
                } else {
                    self.drags.push((e, start, end));
                    self.dragging = Some((entity, old_position, new_position));
                }
            },
            None => {
                self.dragging = Some((entity, old_position, new_position));
            },
        }
    }

    /// Finishes the drag in progress and takes all finished drags, or `None`
    /// when there are none.
    pub fn take_drags(&mut self) -> (r: Option<Vec<(u64, P, P)>>)
        ensures
            ({
                let all = finished_drags(old(self)@);
                &&& final(self)@ == (Seq::<(u64, P, P)>::empty(), None::<(u64, P, P)>)
                &&& match r {
                    Some(v) => all.len() > 0 && v@ == all,
                    None => all.len() == 0,
                }
            }),
    {
        let current = self.dragging.take();
        if let Some(d) = current {
            self.drags.push(d);
        }
        if self.drags.len() == 0 {
            None
        } else {
            let mut drags = Vec::new();
            std::mem::swap(&mut drags, &mut self.drags);
            Some(drags)
        }
    }
}

/// A drag history after one more drag step `(entity, old position, new
/// position)`: a step of the vertex being dragged moves its latest position;
/// a step of another vertex finishes the drag in progress and starts a new
/// one.
pub open spec fn history_step<P>(h: (Seq<(u64, P, P)>, Option<(u64, P, P)>), step: (u64, P, P)) -> (
    Seq<(u64, P, P)>,
    Option<(u64, P, P)>,
) {
    let (entity, old_position, new_position) = step;
    match h.1 {
        Some((e, start, end)) => if e == entity {
            (h.0, Some((e, start, new_position)))
        } else {
            (h.0.push((e, start, end)), Some((entity, old_position, new_position)))
        },
        None => (h.0, Some((entity, old_position, new_position))),
    }
}

/// The drags of a history with the drag in progress finished.
pub open spec fn finished_drags<P>(h: (Seq<(u64, P, P)>, Option<(u64, P, P)>)) -> Seq<(u64, P, P)> {
    match h.1 {
        Some(d) => h.0.push(d),
        None => h.0,
    }
}

/// The history after the drag steps `steps`, from an empty one.
pub open spec fn history_after<P>(steps: Seq<(u64, P, P)>) -> (Seq<(u64, P, P)>, Option<(u64, P, P)>)
    decreases steps.len(),
{
    if steps.len() == 0 {
        (Seq::empty(), None)
    } else {
        history_step(history_after(steps.drop_last()), steps.last())
    }
}

/// One drag per maximal run of consecutive steps of the same vertex, in
/// order: the vertex, the old position of the run's first step and the new
/// position of its last step.
pub open spec fn drag_runs<P>(steps: Seq<(u64, P, P)>) -> Seq<(u64, P, P)>
    decreases steps.len(),
{
    if steps.len() == 0 {
        Seq::empty()
    } else {
        let runs = drag_runs(steps.drop_last());
        let (e, o, n) = steps.last();
        if runs.len() > 0 && runs.last().0 == e {
            runs.update(runs.len() - 1, (e, runs.last().1, n))
        } else {
            runs.push((e, o, n))
        }
    }
}

/// Dragging vertices step by step from an empty history and then taking the
/// drags gives one drag per run of consecutive steps of the same vertex, in
/// order, from the run's first old position to its last new position; there
/// are none exactly when there were no steps.
pub proof fn lemma_drag_history_runs<P>(steps: Seq<(u64, P, P)>)
    ensures
        finished_drags(history_after(steps)) == drag_runs(steps),
        drag_runs(steps).len() == 0 <==> steps.len() == 0,
        history_after(steps).1 is None <==> steps.len() == 0,
        history_after(steps).1 matches Some(d) ==> d == drag_runs(steps).last(),
    decreases steps.len(),
{
    if steps.len() > 0 {
        let prev = steps.drop_last();
        lemma_drag_history_runs(prev);
        let h = history_after(prev);
        let runs = drag_runs(prev);
        let (e, o, n) = steps.last();
        match h.1 {
            Some((de, start, end)) => {
                if de == e {
                    assert(h.0.push((de, start, n)) =~= h.0.push((de, start, end)).update(runs.len() - 1, (e, runs.last().1, n)));
                } else {
                    assert(runs.len() > 0);
                }
            },
            None => {},
        }
    }
}

} // verus!
