//! Application run state: the resource that decides whether the run loop
//! keeps iterating, and the stock decision that ends it.

use vstd::prelude::*;

use crate::input::{ElementState, KeyCode, KeyboardEvent};

verus! {

/// A resource that decides whether the application should continue iterating
/// before coming to a halt.
#[derive(Clone, Copy, Debug, PartialEq, Eq, Structural)]
pub struct ResumeApp(pub bool);

impl ResumeApp {
    /// Asks the application to halt after the current iteration.
    pub fn end(&mut self)
        ensures
            !final(self).0,
    {
        self.0 = false;
    }
}

impl Default for ResumeApp {
    /// A fresh run keeps iterating until something ends it.
    fn default() -> (r: Self)
        ensures
            r.0,
    {
        Self(true)
    }
}

/// Whether the batch holds a press of the escape key.
pub open spec fn has_escape_press(events: Seq<KeyboardEvent>) -> bool {
    exists|i: int|
        0 <= i < events.len() && (#[trigger] events[i]) == (KeyboardEvent {
            key: KeyCode::Escape,
            state: ElementState::Pressed,
        })
}

/// Ends the run exactly when the batch holds a press of the escape key;
/// otherwise the run state is left as it was.
pub fn quit_on_escape(events: &Vec<KeyboardEvent>, resume: &mut ResumeApp)
    ensures
        final(resume).0 == (old(resume).0 && !has_escape_press(events@)),
{
    let mut i: usize = 0;
    while i < events.len()
        invariant
            i <= events.len(),
            resume.0 == (old(resume).0 && !has_escape_press(events@.take(i as int))),
        decreases events.len() - i,
    {
        let event = events[i];
        if event.key == KeyCode::Escape && event.state == ElementState::Pressed {
            resume.end();
        }
        proof {
            let taken = events@.take(i as int + 1);
            assert(taken.drop_last() =~= events@.take(i as int));
            assert(taken.last() == events@[i as int]);
            if has_escape_press(events@.take(i as int)) {
                let k = choose|k: int|
                    0 <= k < i as int && (#[trigger] events@.take(i as int)[k]) == (KeyboardEvent {
                        key: KeyCode::Escape,
                        state: ElementState::Pressed,
                    });
                assert(taken[k] == events@.take(i as int)[k]);
            }
            if events@[i as int] == (KeyboardEvent {
                key: KeyCode::Escape,
                state: ElementState::Pressed,
            }) {
                assert(taken[i as int] == events@[i as int]);
            }
            if has_escape_press(taken) {
                let k = choose|k: int|
                    0 <= k < taken.len() && (#[trigger] taken[k]) == (KeyboardEvent {
                        key: KeyCode::Escape,
                        state: ElementState::Pressed,
                    });
                if k < i as int {
                    assert(events@.take(i as int)[k] == taken[k]);
                }
            }
        }
        i = i + 1;
    }
    proof {
        assert(events@.take(events@.len() as int) =~= events@);
    }
}

} // verus!
