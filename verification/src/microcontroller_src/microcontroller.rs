use vstd::prelude::*;

use crate::utils::timer_driver::{MAX_CHILDREN, TimerDriverError, TimerDriverHandle};

verus! {

/// The number of timer groups of the microcontroller.
pub const TIMER_GROUPS: usize = 2;

/// The original copies of the timer drivers of the microcontroller, one per
/// timer group, from which every driver gets a timer driver of its own. The
/// groups take turns: each request is served by the group at the front,
/// which then goes to the back.
pub struct TimerDriverPool {
    drivers: Vec<TimerDriverHandle>,
}

impl TimerDriverPool {
    /// The original copies, front first.
    pub closed spec fn drivers(self) -> Seq<TimerDriverHandle> {
        self.drivers@
    }

    /// A pool of the given original copies.
    pub fn new(drivers: Vec<TimerDriverHandle>) -> (res: TimerDriverPool)
        ensures
            res.drivers() == drivers@,
    {
        TimerDriverPool { drivers }
    }

    /// The number of groups in the rotation.
    pub fn len(&self) -> (n: usize)
        ensures
            n == self.drivers().len(),
    {
        self.drivers.len()
    }

    /// A timer driver from the group at the front, which then goes to the
    /// back (the group that was last takes the front's place). The front copy
    /// creates the child; when it cannot, the error is returned and the front
    /// copy leaves the rotation.
    pub fn get_timer_driver(&mut self) -> (res: Result<TimerDriverHandle, TimerDriverError>)
        requires
            old(self).drivers().len() > 0,
        ensures
            ({
                let front = old(self).drivers()[0];
                let serves = front.id == 0 && front.next_child < MAX_CHILDREN;
                &&& serves ==> final(self).drivers() == rotated(
                    old(self).drivers(),
                    TimerDriverHandle { next_child: (front.next_child + 1) as u16, ..front },
                )
                &&& serves ==> (res matches Ok(child) && child.id == front.next_child
                    && child.next_child == 0 && child.group == front.group)
                &&& !serves ==> final(self).drivers() == without_front(old(self).drivers())
                &&& front.id != 0 ==> res == Err::<TimerDriverHandle, TimerDriverError>(
                    TimerDriverError::OnlyOriginalCopyCanCreateChildren,
                )
                &&& front.id == 0 && front.next_child >= MAX_CHILDREN ==> res == Err::<
                    TimerDriverHandle,
                    TimerDriverError,
                >(TimerDriverError::TooManyChildren)
            }),
    {
        let mut timer_driver = self.drivers.swap_remove(0);
        assert(self.drivers@ =~= without_front(old(self).drivers()));
        let copy = timer_driver.create_child_copy();
        match copy {
            Ok(child) => {
                self.drivers.push(timer_driver);
                assert(self.drivers@ =~= rotated(old(self).drivers(), timer_driver));
                Ok(child)
            },
            Err(e) => Err(e),
        }
    }
}

/// The pool without its front copy: the last copy moves to the front's place.
pub open spec fn without_front(s: Seq<TimerDriverHandle>) -> Seq<TimerDriverHandle> {
    if s.len() <= 1 {
        Seq::empty()
    } else {
        s.update(0, s.last()).drop_last()
    }
}

/// The pool after its front copy, now `front`, was served: the last copy
/// moves to the front's place and `front` goes to the back.
pub open spec fn rotated(s: Seq<TimerDriverHandle>, front: TimerDriverHandle) -> Seq<
    TimerDriverHandle,
> {
    without_front(s).push(front)
}

/// With two timer groups the groups alternate: after a request, the group
/// that was second serves the next one.
pub proof fn lemma_two_groups_alternate(s: Seq<TimerDriverHandle>, front: TimerDriverHandle)
    requires
        s.len() == 2,
    ensures
        rotated(s, front) == seq![s[1], front],
{
    assert(rotated(s, front) =~= seq![s[1], front]);
}

} // verus!
