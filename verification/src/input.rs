//! Validated acquisition of answers: a question accepts the first supplied
//! answer that satisfies its condition and reports an error for every
//! refused one. Reading answers from a terminal is a boundary concern and
//! stays outside the library; the acceptance logic lives here.

use vstd::prelude::*;

verus! {

/// A question with its prompt text.
pub struct Question<'a>(pub &'a str);

impl<'a> Question<'a> {
    /// Works through `answers` in order until `condition_handler` accepts
    /// one: every refused answer is reported through `on_error`, the first
    /// accepted answer is returned, and `None` is returned when every
    /// answer was refused.
    pub fn ask_forcefully<T, F: Fn(&T) -> bool, G: Fn()>(
        &self,
        answers: Vec<T>,
        condition_handler: F,
        on_error: G,
    ) -> (r: Option<T>)
        requires
            forall|i: int| 0 <= i < answers@.len()
                ==> #[trigger] call_requires(condition_handler, (&answers@[i],)),
            call_requires(on_error, ()),
        ensures
            r matches Some(t) ==> exists|i: int|
                {
                    &&& 0 <= i < answers@.len()
                    &&& answers@[i] == t
                    &&& #[trigger] call_ensures(condition_handler, (&answers@[i],), true)
                    &&& forall|j: int| 0 <= j < i
                        ==> #[trigger] call_ensures(condition_handler, (&answers@[j],), false)
                },
            r is None ==> forall|j: int| 0 <= j < answers@.len()
                ==> #[trigger] call_ensures(condition_handler, (&answers@[j],), false),
    {
        let n = answers.len();
        let mut i: usize = 0;
        while i < n
            invariant
                n == answers@.len(),
                i <= n,
                forall|j: int| 0 <= j < answers@.len()
                    ==> #[trigger] call_requires(condition_handler, (&answers@[j],)),
                call_requires(on_error, ()),
                forall|j: int| 0 <= j < i
                    ==> #[trigger] call_ensures(condition_handler, (&answers@[j],), false),
            decreases n - i,
        {
            let accepted = condition_handler(&answers[i]);
            if accepted {
                proof {
                    assert(call_ensures(condition_handler, (&answers@[i as int],), true));
                }
                let mut rest = answers;
                let t = rest.remove(i);
                return Some(t);
            }
            on_error();
            i = i + 1;
        }
        None
    }
}

} // verus!
