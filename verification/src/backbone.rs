//! State that is shared by all instances: the targets that were touched last.

use vstd::prelude::*;

verus! {

/// The type of a target.
#[derive(Copy, Clone, Debug, PartialEq, Eq, Hash, Structural)]
pub struct ReaperTargetType {
    pub code: u32,
}

/// A target: its type, and a key that tells it from the other targets of its type.
#[derive(Copy, Clone, Debug, PartialEq, Eq, Hash, Structural)]
pub struct ReaperTarget {
    pub target_type: ReaperTargetType,
    pub key: u64,
}

/// Who touched a target.
#[derive(Copy, Clone, Debug, PartialEq, Eq, Structural)]
pub enum TargetTouchCause {
    Any,
    Realearn,
    Reaper,
}

/// A target has been touched.
#[derive(Copy, Clone, Debug, PartialEq, Eq, Structural)]
pub struct TargetTouchEvent {
    pub target: ReaperTarget,
    pub caused_by_realearn: bool,
}

/// A target that was touched.
#[derive(Copy, Clone, Debug, PartialEq, Eq, Structural)]
pub struct TargetTouch {
    pub target: ReaperTarget,
    pub caused_by_realearn: bool,
}

/// The touches that `event` leaves in place: those of another target type or of another
/// cause.
pub open spec fn survives(touch: TargetTouch, event: TargetTouchEvent) -> bool {
    touch.target.target_type != event.target.target_type || touch.caused_by_realearn
        != event.caused_by_realearn
}

/// Which touches are looked for.
#[derive(Debug)]
pub struct LastTouchedTargetFilter<'a> {
    pub included_target_types: &'a Vec<ReaperTargetType>,
    pub touch_cause: TargetTouchCause,
}

impl<'a> LastTouchedTargetFilter<'a> {
    /// The cause of a touch is one that the filter looks for.
    pub open spec fn admits_cause(&self, caused_by_realearn: bool) -> bool {
        match self.touch_cause {
            TargetTouchCause::Any => true,
            TargetTouchCause::Realearn => caused_by_realearn,
            TargetTouchCause::Reaper => !caused_by_realearn,
        }
    }

    /// The filter looks for touches of this target by this cause.
    pub open spec fn admits(&self, target: ReaperTarget, caused_by_realearn: bool) -> bool {
        self.admits_cause(caused_by_realearn) && self.included_target_types@.contains(
            target.target_type,
        )
    }

    fn includes_type(&self, target_type: ReaperTargetType) -> (included: bool)
        ensures
            included == self.included_target_types@.contains(target_type),
    {
        let mut i: usize = 0;
        while i < self.included_target_types.len()
            invariant
                i <= self.included_target_types@.len(),
                forall|j: int| 0 <= j < i ==> self.included_target_types@[j] != target_type,
            decreases self.included_target_types@.len() - i,
        {
            if self.included_target_types[i].code == target_type.code {
                assert(self.included_target_types@[i as int] == target_type);
                return true;
            }
            i = i + 1;
        }
        false
    }

    fn cause_matches(&self, caused_by_realearn: bool) -> (admitted: bool)
        ensures
            admitted == self.admits_cause(caused_by_realearn),
    {
        match self.touch_cause {
            TargetTouchCause::Any => true,
            TargetTouchCause::Realearn => caused_by_realearn,
            TargetTouchCause::Reaper => !caused_by_realearn,
        }
    }

    /// Returns whether the filter looks for the touch that `event` reports.
    pub fn matches(&self, event: &TargetTouchEvent) -> (matched: bool)
        ensures
            matched == self.admits(event.target, event.caused_by_realearn),
    {
        if !self.cause_matches(event.caused_by_realearn) {
            return false;
        }
        self.includes_type(event.target.target_type)
    }
}

/// The targets that were touched last: for each target type and cause at most one, the
/// most recent at the end.
#[derive(Debug)]
pub struct LastTouchedTargetsContainer {
    last_target_touches: Vec<TargetTouch>,
}

impl LastTouchedTargetsContainer {
    /// The touches, the most recent at the end.
    pub closed spec fn touches(&self) -> Seq<TargetTouch> {
        self.last_target_touches@
    }

    /// No two touches have the same target type and cause.
    pub open spec fn wf(&self) -> bool {
        forall|i: int, j: int|
            0 <= i < j < self.touches().len() ==> (#[trigger] self.touches()[i]).target.target_type
                != (#[trigger] self.touches()[j]).target.target_type
                || self.touches()[i].caused_by_realearn != self.touches()[j].caused_by_realearn
    }

    /// The touch that `event` reports is the most recent one already.
    pub open spec fn is_last(&self, event: TargetTouchEvent) -> bool {
        self.touches().len() > 0 && self.touches().last().target == event.target
            && self.touches().last().caused_by_realearn == event.caused_by_realearn
    }

    /// Creates a container with room for `max_count` touches.
    pub fn new(max_count: usize) -> (container: Self)
        ensures
            container.touches() == Seq::<TargetTouch>::empty(),
            container.wf(),
    {
        Self { last_target_touches: Vec::with_capacity(max_count) }
    }

    /// Records a touch. Returns `true` if the target that was touched last has changed.
    ///
    /// Nothing changes if the touch repeats the most recent one. Otherwise the touches of
    /// the same target type and cause are removed, and the new one is added at the end.
    pub fn update(&mut self, event: TargetTouchEvent) -> (changed: bool)
        ensures
            changed == !old(self).is_last(event),
            old(self).wf() ==> final(self).wf(),
            !changed ==> final(self).touches() == old(self).touches(),
            changed ==> final(self).touches() == old(self).touches().filter(
                |touch: TargetTouch| survives(touch, event),
            ).push(
                TargetTouch { target: event.target, caused_by_realearn: event.caused_by_realearn },
            ),
    {
        let count = self.last_target_touches.len();
        if count > 0 {
            let last_target_touch = self.last_target_touches[count - 1];
            if event.target.target_type.code == last_target_touch.target.target_type.code
                && event.target.key == last_target_touch.target.key && event.caused_by_realearn
                == last_target_touch.caused_by_realearn {
                return false;
            }
        }
        let ghost pred = |touch: TargetTouch| survives(touch, event);
        let mut kept: Vec<TargetTouch> = Vec::new();
        let mut i: usize = 0;
        proof {
            reveal(Seq::filter);
            assert(self.last_target_touches@.take(0).filter(pred) =~= Seq::<TargetTouch>::empty());
        }
        while i < self.last_target_touches.len()
            invariant
                i <= self.last_target_touches@.len(),
                self.last_target_touches@ == old(self).last_target_touches@,
                pred == (|touch: TargetTouch| survives(touch, event)),
                kept@ == self.last_target_touches@.take(i as int).filter(pred),
            decreases self.last_target_touches@.len() - i,
        {
            let touch = self.last_target_touches[i];
            proof {
                reveal(Seq::filter);
                let next = self.last_target_touches@.take(i + 1);
                assert(next.drop_last() =~= self.last_target_touches@.take(i as int));
                assert(next.last() == touch);
            }
            if touch.target.target_type.code != event.target.target_type.code
                || touch.caused_by_realearn != event.caused_by_realearn {
                kept.push(touch);
            }
            i = i + 1;
        }
        proof {
            assert(self.last_target_touches@.take(i as int) =~= self.last_target_touches@);
        }
        kept.push(
            TargetTouch { target: event.target, caused_by_realearn: event.caused_by_realearn },
        );
        proof {
            if old(self).wf() {
                Self::lemma_update_keeps_wf(old(self).touches(), event);
            }
        }
        self.last_target_touches = kept;
        true
    }

    /// Returns the most recent touch that the filter looks for.
    pub fn find(&self, filter: LastTouchedTargetFilter<'_>) -> (found: Option<ReaperTarget>)
        ensures
            found.is_none() <==> forall|i: int|
                0 <= i < self.touches().len() ==> !filter.admits(
                    (#[trigger] self.touches()[i]).target,
                    self.touches()[i].caused_by_realearn,
                ),
            found matches Some(target) ==> exists|i: int|
                0 <= i < self.touches().len() && (#[trigger] self.touches()[i]).target == target
                    && filter.admits(target, self.touches()[i].caused_by_realearn) && forall|j: int|
                    i < j < self.touches().len() ==> !filter.admits(
                        (#[trigger] self.touches()[j]).target,
                        self.touches()[j].caused_by_realearn,
                    ),
    {
        let mut i: usize = self.last_target_touches.len();
        while i > 0
            invariant
                i <= self.last_target_touches@.len(),
                forall|j: int|
                    i <= j < self.last_target_touches@.len() ==> !filter.admits(
                        (#[trigger] self.last_target_touches@[j]).target,
                        self.last_target_touches@[j].caused_by_realearn,
                    ),
            decreases i,
        {
            i = i - 1;
            let touch = self.last_target_touches[i];
            if filter.cause_matches(touch.caused_by_realearn) && filter.includes_type(
                touch.target.target_type,
            ) {
                assert(self.touches()[i as int].target == touch.target);
                return Some(touch.target);
            }
        }
        None
    }

    /// A touch that is recorded is the most recent one afterwards, and the container stays
    /// well-formed.
    pub proof fn lemma_update_keeps_wf(before: Seq<TargetTouch>, event: TargetTouchEvent)
        requires
            forall|i: int, j: int|
                0 <= i < j < before.len() ==> (#[trigger] before[i]).target.target_type != (
                #[trigger] before[j]).target.target_type || before[i].caused_by_realearn
                    != before[j].caused_by_realearn,
        ensures
            ({
                let after = before.filter(|touch: TargetTouch| survives(touch, event)).push(
                    TargetTouch {
                        target: event.target,
                        caused_by_realearn: event.caused_by_realearn,
                    },
                );
                &&& after.last().target == event.target
                &&& forall|i: int, j: int|
                    0 <= i < j < after.len() ==> (#[trigger] after[i]).target.target_type != (
                    #[trigger] after[j]).target.target_type || after[i].caused_by_realearn
                        != after[j].caused_by_realearn
            }),
    {
        let pred = |touch: TargetTouch| survives(touch, event);
        lemma_filter_keeps_distinct(before, pred);
        let filtered = before.filter(pred);
        let after = filtered.push(
            TargetTouch { target: event.target, caused_by_realearn: event.caused_by_realearn },
        );
        assert forall|i: int, j: int| 0 <= i < j < after.len() implies (#[trigger] after[i]).target.target_type
            != (#[trigger] after[j]).target.target_type || after[i].caused_by_realearn
            != after[j].caused_by_realearn by {
            if j == filtered.len() {
                before.lemma_filter_pred(pred, i);
            }
        }
    }
}

/// Filtering keeps touches distinct by target type and cause.
pub proof fn lemma_filter_keeps_distinct(touches: Seq<TargetTouch>, pred: spec_fn(TargetTouch) -> bool)
    requires
        forall|i: int, j: int|
            0 <= i < j < touches.len() ==> (#[trigger] touches[i]).target.target_type != (
            #[trigger] touches[j]).target.target_type || touches[i].caused_by_realearn
                != touches[j].caused_by_realearn,
    ensures
        forall|i: int, j: int|
            0 <= i < j < touches.filter(pred).len() ==> (#[trigger] touches.filter(
                pred,
            )[i]).target.target_type != (#[trigger] touches.filter(pred)[j]).target.target_type
                || touches.filter(pred)[i].caused_by_realearn != touches.filter(
                pred,
            )[j].caused_by_realearn,
        forall|i: int|
            0 <= i < touches.filter(pred).len() ==> touches.contains(
                #[trigger] touches.filter(pred)[i],
            ),
    decreases touches.len(),
{
    reveal(Seq::filter);
    if touches.len() > 0 {
        let rest = touches.drop_last();
        lemma_filter_keeps_distinct(rest, pred);
        let sub = rest.filter(pred);
        assert forall|i: int| 0 <= i < sub.len() implies touches.contains(#[trigger] sub[i]) by {
            assert(rest.contains(sub[i]));
            let k = choose|k: int| 0 <= k < rest.len() && rest[k] == sub[i];
            assert(touches[k] == sub[i]);
        }
        if pred(touches.last()) {
            let full = sub.push(touches.last());
            assert(touches.filter(pred) == full);
            assert forall|i: int, j: int| 0 <= i < j < full.len() implies (#[trigger] full[i]).target.target_type
                != (#[trigger] full[j]).target.target_type || full[i].caused_by_realearn
                != full[j].caused_by_realearn by {
                if j == sub.len() {
                    assert(rest.contains(sub[i]));
                    let k = choose|k: int| 0 <= k < rest.len() && rest[k] == sub[i];
                    assert(touches[k] == sub[i]);
                    assert(touches[touches.len() - 1] == full[j]);
                }
            }
            assert forall|i: int| 0 <= i < full.len() implies touches.contains(
                #[trigger] full[i],
            ) by {
                if i == sub.len() {
                    assert(touches[touches.len() - 1] == full[i]);
                }
            }
        }
    }
}

} // verus!
