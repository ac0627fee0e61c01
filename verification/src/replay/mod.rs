//! That calling an operation again is safe.
//!
//! An operation that was suspended is called again with one more reply on record. For that to be the
//! same operation going on, the second call has to ask what the first one asked, in the same order,
//! and an operation that came to its end has to come to the same end. This is proved here for every
//! conversation that an operation of the controller, of the daemon or of the desktop leads.
pub mod controller;
pub mod system;

use vstd::prelude::*;

use crate::session::{asks, continues, resumes, Dialogue, Stop};

verus! {

/// No more replies have been read than are on record.
pub open spec fn sound<Q, A>(d: Dialogue<Q, A>) -> bool {
    0 <= d.used <= d.replies.len()
}

/// An operation, as what it does to a conversation.
pub type Operation<Q, A, T, E> = spec_fn(Dialogue<Q, A>) -> (
    Dialogue<Q, A>,
    Result<T, Stop<E>>,
);

/// An operation only ever continues the conversation.
pub open spec fn advances<Q, A, T, E>(run: Operation<Q, A, T, E>) -> bool {
    forall|d: Dialogue<Q, A>|
        sound(d) ==> continues(d, (#[trigger] run(d)).0) && sound(run(d).0)
}

/// An operation that is called again repeats what it did before.
pub open spec fn repeats<Q, A, T, E>(run: Operation<Q, A, T, E>) -> bool {
    &&& advances(run)
    &&& forall|d: Dialogue<Q, A>, more: Seq<A>|
        sound(d) ==> resumes(run(d), #[trigger] run(d.with(more)), more)
}

/// One operation, and then another that depends on how the first one ended.
pub open spec fn followed<Q, A, S, T, E, F>(
    run: Operation<Q, A, S, E>,
    next: spec_fn(Result<S, E>) -> Operation<Q, A, T, F>,
) -> Operation<Q, A, T, F> {
    |d: Dialogue<Q, A>|
        match run(d) {
            (d, Ok(value)) => next(Ok(value))(d),
            (d, Err(Stop::Failed(error))) => next(Err(error))(d),
            (d, Err(Stop::Suspended)) => (d, Err(Stop::Suspended)),
        }
}

/// Two operations in a row repeat themselves if each of them does.
pub proof fn law_sequences_repeat<Q, A, S, T, E, F>(
    run: Operation<Q, A, S, E>,
    next: spec_fn(Result<S, E>) -> Operation<Q, A, T, F>,
)
    requires
        repeats(run),
        forall|outcome: Result<S, E>| repeats(#[trigger] next(outcome)),
    ensures
        repeats(followed(run, next)),
{
    let both = followed(run, next);
    assert forall|d: Dialogue<Q, A>| sound(d) implies continues(d, (#[trigger] both(d)).0) && sound(
        both(d).0,
    ) by {
        let (d1, outcome) = run(d);
        match outcome {
            Ok(value) => {
                let rest = next(Ok(value));
                assert(repeats(rest));
                assert(continues(d1, rest(d1).0));
            },
            Err(Stop::Failed(error)) => {
                let rest = next(Err(error));
                assert(repeats(rest));
                assert(continues(d1, rest(d1).0));
            },
            Err(Stop::Suspended) => {},
        }
    }
    assert forall|d: Dialogue<Q, A>, more: Seq<A>| sound(d) implies resumes(
        both(d),
        #[trigger] both(d.with(more)),
        more,
    ) by {
        let (d1, outcome) = run(d);
        let (l1, later) = run(d.with(more));
        assert(resumes(run(d), run(d.with(more)), more));
        assert(sound(d.with(more)));
        assert(sound(l1));
        match outcome {
            Ok(value) => {
                let rest = next(Ok(value));
                assert(repeats(rest));
                assert(l1 == d1.with(more));
                assert(resumes(rest(d1), rest(d1.with(more)), more));
            },
            Err(Stop::Failed(error)) => {
                let rest = next(Err(error));
                assert(repeats(rest));
                assert(l1 == d1.with(more));
                assert(resumes(rest(d1), rest(d1.with(more)), more));
            },
            Err(Stop::Suspended) => {
                match later {
                    Ok(value) => {
                        let rest = next(Ok(value));
                        assert(repeats(rest));
                        assert(continues(l1, rest(l1).0));
                    },
                    Err(Stop::Failed(error)) => {
                        let rest = next(Err(error));
                        assert(repeats(rest));
                        assert(continues(l1, rest(l1).0));
                    },
                    Err(Stop::Suspended) => {},
                }
            },
        }
    }
}

/// One operation, and then another if the first one succeeded.
pub open spec fn continued<Q, A, S, T, E>(
    run: Operation<Q, A, S, E>,
    rest: spec_fn(S) -> Operation<Q, A, T, E>,
) -> Operation<Q, A, T, E> {
    |d: Dialogue<Q, A>|
        match run(d) {
            (d, Ok(value)) => rest(value)(d),
            (d, Err(stop)) => (d, Err(stop)),
        }
}

/// An operation that goes on only after success repeats itself if both parts do.
pub proof fn law_continuations_repeat<Q, A, S, T, E>(
    run: Operation<Q, A, S, E>,
    rest: spec_fn(S) -> Operation<Q, A, T, E>,
)
    requires
        repeats(run),
        forall|value: S| repeats(#[trigger] rest(value)),
    ensures
        repeats(continued(run, rest)),
{
    let next = |outcome: Result<S, E>|
        match outcome {
            Ok(value) => rest(value),
            Err(error) => ended(Err(error)),
        };
    assert forall|outcome: Result<S, E>| repeats(#[trigger] next(outcome)) by {
        match outcome {
            Ok(value) => {
                assert(repeats(rest(value)));
            },
            Err(error) => {
                lemma_ended::<Q, A, T, E>(Err(error));
            },
        }
    }
    law_sequences_repeat(run, next);
    assert(followed(run, next) =~= continued(run, rest));
}

/// An operation that asks nothing.
pub open spec fn ended<Q, A, T, E>(result: Result<T, E>) -> Operation<Q, A, T, E> {
    |d: Dialogue<Q, A>|
        match result {
            Ok(value) => (d, Ok(value)),
            Err(error) => (d, Err(Stop::Failed(error))),
        }
}

/// One request.
pub open spec fn asking<Q, A, E>(request: Q) -> Operation<Q, A, A, E> {
    |d: Dialogue<Q, A>| asks::<Q, A, E>(d, request)
}

pub proof fn lemma_ended<Q, A, T, E>(result: Result<T, E>)
    ensures
        repeats(ended::<Q, A, T, E>(result)),
{
}

/// One request repeats itself.
pub proof fn law_requests_repeat<Q, A, E>(request: Q)
    ensures
        repeats(asking::<Q, A, E>(request)),
{
}

// ---- Waiting ----

/// `whole` takes steps until one of them says that it was the last; each of the others has read a
/// reply.
pub open spec fn polls<Q, A, E>(
    step: Operation<Q, A, bool, E>,
    whole: Operation<Q, A, (), E>,
) -> bool {
    forall|d: Dialogue<Q, A>|
        sound(d) ==> #[trigger] whole(d) == match step(d) {
            (d, Ok(true)) => (d, Ok(())),
            (d, Ok(false)) => whole(d),
            (d, Err(stop)) => (d, Err(stop)),
        } && (step(d).1 == Ok::<bool, Stop<E>>(false) ==> step(d).0.used > d.used)
}

proof fn lemma_polling_advances<Q, A, E>(
    step: Operation<Q, A, bool, E>,
    whole: Operation<Q, A, (), E>,
    d: Dialogue<Q, A>,
)
    requires
        repeats(step),
        polls(step, whole),
        sound(d),
    ensures
        continues(d, whole(d).0),
        sound(whole(d).0),
    decreases d.left(),
{
    let (d1, outcome) = step(d);
    assert(continues(d, step(d).0));
    assert(whole(d) == whole(d));
    if let Ok(false) = outcome {
        lemma_polling_advances(step, whole, d1);
    }
}

proof fn lemma_polling_resumes<Q, A, E>(
    step: Operation<Q, A, bool, E>,
    whole: Operation<Q, A, (), E>,
    d: Dialogue<Q, A>,
    more: Seq<A>,
)
    requires
        repeats(step),
        polls(step, whole),
        sound(d),
    ensures
        resumes(whole(d), whole(d.with(more)), more),
    decreases d.left(),
{
    let (d1, outcome) = step(d);
    let (l1, later) = step(d.with(more));
    assert(continues(d, step(d).0));
    assert(resumes(step(d), step(d.with(more)), more));
    assert(whole(d) == whole(d));
    assert(whole(d.with(more)) == whole(d.with(more)));
    match outcome {
        Ok(false) => {
            lemma_polling_resumes(step, whole, d1, more);
        },
        Err(Stop::Suspended) => {
            if let Ok(false) = later {
                lemma_polling_advances(step, whole, l1);
            }
        },
        _ => {},
    }
}

/// Waiting repeats itself if each step does.
pub proof fn law_waiting_repeats<Q, A, E>(
    step: Operation<Q, A, bool, E>,
    whole: Operation<Q, A, (), E>,
)
    requires
        repeats(step),
        polls(step, whole),
    ensures
        repeats(whole),
{
    assert forall|d: Dialogue<Q, A>| sound(d) implies continues(d, (#[trigger] whole(d)).0) && sound(
        whole(d).0,
    ) by {
        lemma_polling_advances(step, whole, d);
    }
    assert forall|d: Dialogue<Q, A>, more: Seq<A>| sound(d) implies resumes(
        whole(d),
        #[trigger] whole(d.with(more)),
        more,
    ) by {
        lemma_polling_resumes(step, whole, d, more);
    }
}

} // verus!
