//! Conversations with the outside world.
//!
//! An operation that talks to hardware, to a file or to a clock is written here as a function of
//! the replies it has been given so far. It asks its requests in order. As long as a reply is on
//! record it goes on; at the first request without one it stops with [`Stop::Suspended`]. The
//! caller performs that request, records the reply with [`Session::answer`] and calls the
//! operation again, which then repeats the recorded part of the conversation and goes one
//! request further.
use vstd::prelude::*;

verus! {

/// Why an operation did not return a value.
#[derive(Clone, Copy, PartialEq, Eq, Debug, Structural)]
pub enum Stop<E> {
    /// The last request asked has no reply yet.
    Suspended,
    /// The operation ended with an error.
    Failed(E),
}

/// A conversation as a mathematical value: what was asked, the replies on record and how many of
/// them have been read.
#[verifier::ext_equal]
pub struct Dialogue<Q, A> {
    pub asked: Seq<Q>,
    pub replies: Seq<A>,
    pub used: int,
}

impl<Q, A> Dialogue<Q, A> {
    /// The same conversation with more replies on record.
    pub open spec fn with(self, more: Seq<A>) -> Self {
        Dialogue { replies: self.replies + more, ..self }
    }

    /// How many replies are still unread.
    pub open spec fn left(self) -> int {
        self.replies.len() - self.used
    }
}

/// Asking one request: it is appended to what was asked, and the next unread reply answers it.
pub open spec fn asks<Q, A, E>(d: Dialogue<Q, A>, request: Q) -> (
    Dialogue<Q, A>,
    Result<A, Stop<E>>,
) {
    let asked = d.asked.push(request);
    if d.used < d.replies.len() {
        (Dialogue { asked, used: d.used + 1, ..d }, Ok(d.replies[d.used]))
    } else {
        (Dialogue { asked, ..d }, Err(Stop::Suspended))
    }
}

/// `later` continues the conversation `earlier`: everything asked before still stands, in order,
/// the record of replies is the same, and replies are only ever read on.
pub open spec fn continues<Q, A>(earlier: Dialogue<Q, A>, later: Dialogue<Q, A>) -> bool {
    &&& earlier.asked.len() <= later.asked.len()
    &&& forall|i: int| 0 <= i < earlier.asked.len() ==> earlier.asked[i] == later.asked[i]
    &&& earlier.replies == later.replies
    &&& earlier.used <= later.used
}

/// How a run on a record of replies relates to the run of the same operation with `more` replies
/// on record: a finished run is repeated exactly, and a suspended one is repeated up to and with
/// the request it was suspended at.
pub open spec fn resumes<Q, A, T, E>(
    short: (Dialogue<Q, A>, Result<T, Stop<E>>),
    long: (Dialogue<Q, A>, Result<T, Stop<E>>),
    more: Seq<A>,
) -> bool {
    if short.1 == Err::<T, Stop<E>>(Stop::Suspended) {
        &&& short.0.asked.len() <= long.0.asked.len()
        &&& forall|i: int| 0 <= i < short.0.asked.len() ==> short.0.asked[i] == long.0.asked[i]
    } else {
        &&& long.0 == short.0.with(more)
        &&& long.1 == short.1
    }
}

/// One request, asked with more replies on record, is answered as before if it was answered.
pub proof fn law_asking_resumes<Q, A, E>(d: Dialogue<Q, A>, request: Q, more: Seq<A>)
    requires
        0 <= d.used <= d.replies.len(),
    ensures
        resumes(asks::<Q, A, E>(d, request), asks::<Q, A, E>(d.with(more), request), more),
        continues(d, asks::<Q, A, E>(d, request).0),
        0 <= asks::<Q, A, E>(d, request).0.used <= d.replies.len(),
{
}

/// A conversation in progress: the requests asked by the current run, and the replies on record.
pub struct Session<Q, A> {
    asked: Vec<Q>,
    replies: Vec<A>,
    used: usize,
}

impl<Q, A> View for Session<Q, A> {
    type V = Dialogue<Q, A>;

    closed spec fn view(&self) -> Dialogue<Q, A> {
        Dialogue { asked: self.asked@, replies: self.replies@, used: self.used as int }
    }
}

impl<Q, A> Session<Q, A> {
    /// A conversation in which nothing has been asked and nothing is on record.
    pub fn new() -> (session: Self)
        ensures
            session@ == (Dialogue::<Q, A> { asked: Seq::empty(), replies: Seq::empty(), used: 0 }),
    {
        Session { asked: Vec::new(), replies: Vec::new(), used: 0 }
    }

    /// Asks `request`. The next reply on record answers it; without one the run is suspended.
    pub fn ask<E>(&mut self, request: Q) -> (reply: Result<&A, Stop<E>>)
        ensures
            final(self)@ == asks::<Q, A, E>(old(self)@, request).0,
            match reply {
                Ok(answer) => Ok::<A, Stop<E>>(*answer),
                Err(stop) => Err(stop),
            } == asks::<Q, A, E>(old(self)@, request).1,
    {
        self.asked.push(request);
        if self.used < self.replies.len() {
            let next: usize = self.used;
            self.used = self.used + 1;
            Ok(&self.replies[next])
        } else {
            Err(Stop::Suspended)
        }
    }

    /// The requests of the current run, in order.
    pub fn asked(&self) -> (requests: &Vec<Q>)
        ensures
            requests@ == self@.asked,
    {
        &self.asked
    }

    /// The request that the current run is waiting for: the last one asked, if it has no reply.
    pub fn pending(&self) -> (request: Option<&Q>)
        ensures
            match request {
                Some(last) => self@.used < self@.asked.len() && *last == self@.asked.last(),
                None => self@.asked.len() <= self@.used,
            },
    {
        if self.used < self.asked.len() {
            Some(&self.asked[self.asked.len() - 1])
        } else {
            None
        }
    }

    /// Records the reply to the pending request and goes back to the start of the conversation,
    /// so that the operation can be run again.
    pub fn answer(&mut self, reply: A)
        ensures
            final(self)@ == (Dialogue::<Q, A> {
                asked: Seq::empty(),
                replies: old(self)@.replies.push(reply),
                used: 0,
            }),
    {
        self.replies.push(reply);
        self.asked = Vec::new();
        self.used = 0;
    }
}

/// Asking: the request is the last thing asked, and the next unread reply, just that one, answers it.
/// Without one the run is suspended, and no reply counts as read.
pub proof fn law_the_next_reply_answers<Q, A, E>(d: Dialogue<Q, A>, request: Q)
    requires
        0 <= d.used,
    ensures
        ({
            let (after, reply) = asks::<Q, A, E>(d, request);
            &&& after.asked.len() == d.asked.len() + 1
            &&& after.asked.last() == request
            &&& after.asked.drop_last() == d.asked
            &&& after.replies == d.replies
            &&& d.used < d.replies.len() ==> reply == Ok::<A, Stop<E>>(d.replies[d.used])
                && after.used == d.used + 1
            &&& d.used >= d.replies.len() ==> reply == Err::<A, Stop<E>>(Stop::Suspended)
                && after.used == d.used
        }),
{
    assert(asks::<Q, A, E>(d, request).0.asked.drop_last() =~= d.asked);
}

} // verus!
