//! One operation of a card session, from the acquisition of the bus to its
//! release.
//!
//! A transaction starts as a [`Pending`], which asks the driver for the bus.
//! Once the bus is acquired it is a [`Held`], which owns the driver's handle
//! on the bus, names the engine call to make and takes the engine's reply.
//! It ends with the first failure, or when the last call of its plan has
//! succeeded. The handle on the bus ends with it: whatever the result, the
//! bus is free again when the operation is over.

use crate::error::SdCardError;
use crate::plan::Call;
use crate::plan::Operation;
use crate::session::SdCard;
use vstd::prelude::*;

verus! {

/// What the filesystem engine reports of a call: the bytes that it moved, or
/// why it failed. A call that moves no bytes reports a count that nothing
/// reads.
pub type Reply = Result<usize, embedded_sdmmc::Error<embedded_sdmmc::SdMmcError>>;

/// The bytes moved by the last of the first `n` calls of the plan that moves
/// any, when the engine answers call `i` with `replies[i]`; 0 when none of
/// them does.
pub open spec fn moved(op: Operation<'_>, replies: Seq<Reply>, n: nat) -> usize
    decreases n,
{
    if n == 0 {
        0
    } else if op.plan()[n - 1].transfers() && replies[n - 1] is Ok {
        replies[n - 1]->Ok_0
    } else {
        moved(op, replies, (n - 1) as nat)
    }
}

/// How an operation that holds the bus ends when its first `from` calls have
/// succeeded and the engine answers call `i` of the plan with `replies[i]`:
/// with the first failure among the calls that are left, as the engine's, or
/// else with the count of bytes moved.
pub open spec fn settle(op: Operation<'_>, replies: Seq<Reply>, from: nat) -> Result<
    usize,
    SdCardError,
>
    decreases op.plan().len() - from,
{
    if from >= op.plan().len() || from >= replies.len() {
        Ok(moved(op, replies, from))
    } else {
        match replies[from as int] {
            Err(e) => Err(SdCardError::Controller(e)),
            Ok(_) => settle(op, replies, from + 1),
        }
    }
}

/// How an operation ends when the acquisition of the bus goes as `bus` and
/// the engine answers call `i` of the plan with `replies[i]`. Without the bus
/// it ends with the transport's failure. With it, it ends with the first
/// failure of a call, as the engine's, and with the count of bytes moved
/// when every call succeeds. Replies past the first failure answer no call
/// and are not read.
pub open spec fn outcome(
    op: Operation<'_>,
    bus: Result<(), embedded_sdmmc::SdMmcError>,
    replies: Seq<Reply>,
) -> Result<usize, SdCardError> {
    match bus {
        Err(e) => Err(SdCardError::SdMmc(e)),
        Ok(_) => settle(op, replies, 0),
    }
}

/// Whether call `i` of the plan is made: the bus was acquired and every call
/// before it succeeded.
pub open spec fn made(
    op: Operation<'_>,
    bus: Result<(), embedded_sdmmc::SdMmcError>,
    replies: Seq<Reply>,
    i: int,
) -> bool {
    &&& bus is Ok
    &&& 0 <= i < op.plan().len()
    &&& forall|j: int| 0 <= j < i ==> (#[trigger] replies[j]) is Ok
}

/// An operation that waits for the bus. No engine call can be made for it
/// yet.
#[derive(Debug)]
pub struct Pending<'s, 'a> {
    op: Operation<'a>,
    session: core::marker::PhantomData<&'s mut SdCard>,
}

/// An operation that holds the bus and has an engine call to make.
pub struct Held<'s, 'a, B> {
    at: Cursor<'a>,
    bus: B,
    session: core::marker::PhantomData<&'s mut SdCard>,
}

/// A place in the plan of an operation at which a call is due.
struct Cursor<'a> {
    op: Operation<'a>,
    /// How many calls have succeeded.
    done: usize,
    /// The bytes moved so far.
    count: usize,
    /// The engine's replies so far.
    replies: Ghost<Seq<Reply>>,
}

impl<'a> Cursor<'a> {
    #[verifier::type_invariant]
    spec fn well_formed(&self) -> bool {
        &&& self.done == self.replies@.len()
        &&& self.done < self.op.plan().len()
        &&& forall|i: int| 0 <= i < self.done ==> (#[trigger] self.replies@[i]) is Ok
        &&& self.count == moved(self.op, self.replies@, self.done as nat)
    }
}

/// What the driver does after an engine call.
pub enum Next<'s, 'a, B> {
    /// Make the next engine call, still under the same acquisition.
    Call(Held<'s, 'a, B>),
    /// The bus is free: the card is mounted and its root directory is open.
    Mounted(SdCard),
    /// The bus is free: the operation is over, with this result.
    Done(Result<usize, SdCardError>),
}

/// The count of a plan's first calls does not depend on later replies.
proof fn lemma_moved_of_prefix(op: Operation<'_>, replies: Seq<Reply>, more: Seq<Reply>, n: nat)
    requires
        n <= replies.len(),
        replies.len() <= more.len(),
        forall|i: int| 0 <= i < replies.len() ==> replies[i] == more[i],
    ensures
        moved(op, replies, n) == moved(op, more, n),
    decreases n,
{
    if n > 0 {
        lemma_moved_of_prefix(op, replies, more, (n - 1) as nat);
    }
}

/// An operation whose calls before `from` all succeeded ends as it ends from
/// `from` on.
proof fn lemma_settle_skips_successes(op: Operation<'_>, replies: Seq<Reply>, from: nat)
    requires
        from <= op.plan().len(),
        from <= replies.len(),
        forall|i: int| 0 <= i < from ==> (#[trigger] replies[i]) is Ok,
    ensures
        settle(op, replies, 0) == settle(op, replies, from),
    decreases from,
{
    if from > 0 {
        lemma_settle_skips_successes(op, replies, (from - 1) as nat);
        assert(replies[from - 1] is Ok);
    }
}

impl<'s, 'a> Pending<'s, 'a> {
    /// The operation that waits.
    pub closed spec fn operation(&self) -> Operation<'a> {
        self.op
    }

    /// The transaction of `op`, at its start.
    pub(crate) fn begin(op: Operation<'a>) -> (t: Pending<'s, 'a>)
        ensures
            t.operation() == op,
    {
        Pending { op, session: core::marker::PhantomData }
    }

    /// Takes the outcome of acquiring the bus, which on success is the
    /// driver's handle on the bus. Where the bus was acquired, the operation
    /// holds it, with the handle, and stands at the first call of its plan.
    /// Where it was not, the operation is over: no engine call is made, and
    /// the failure is reported as the transport's.
    pub fn acquired<B>(self, outcome: Result<B, embedded_sdmmc::SdMmcError>) -> (r: Result<
        Held<'s, 'a, B>,
        SdCardError,
    >)
        ensures
            outcome matches Ok(bus) ==> r matches Ok(held) && held.operation() == self.operation()
                && held.replies() == Seq::<Reply>::empty() && held.bus() == bus,
            outcome matches Err(e) ==> r == Err::<Held<'s, 'a, B>, SdCardError>(
                SdCardError::SdMmc(e),
            ),
    {
        match outcome {
            Ok(bus) => {
                assert(self.op.plan().len() > 0);
                Ok(
                    Held {
                        at: Cursor { op: self.op, done: 0, count: 0, replies: Ghost(Seq::empty()) },
                        bus,
                        session: core::marker::PhantomData,
                    },
                )
            },
            Err(e) => Err(SdCardError::from(e)),
        }
    }
}

impl<'s, 'a, B> Held<'s, 'a, B> {
    /// The operation that holds the bus.
    pub closed spec fn operation(&self) -> Operation<'a> {
        self.at.op
    }

    /// The engine's replies so far, one for each call made, every one of
    /// them a success.
    pub closed spec fn replies(&self) -> Seq<Reply> {
        self.at.replies@
    }

    /// The driver's handle on the bus.
    pub closed spec fn bus(&self) -> B {
        self.bus
    }

    /// Lends the handle on the bus for the engine call to be made through
    /// it. Nothing else of the transaction changes.
    pub fn bus_mut(&mut self) -> (bus: &mut B)
        ensures
            *bus == old(self).bus(),
            final(self).bus() == *final(bus),
            final(self).operation() == old(self).operation(),
            final(self).replies() == old(self).replies(),
    {
        &mut self.bus
    }

    /// The engine call to make now: the one that follows the calls that were
    /// answered.
    pub fn call(&self) -> (c: Call<'a>)
        ensures
            made(self.operation(), Ok(()), self.replies(), self.replies().len() as int),
            c == self.operation().plan()[self.replies().len() as int],
    {
        proof {
            use_type_invariant(&self.at);
        }
        self.at.op.call(self.at.done).unwrap()
    }

    /// Takes the engine's reply to the call that [`Held::call`] named.
    ///
    /// After a success with calls of the plan left, the next call is due,
    /// under the same acquisition. Otherwise the operation is over and the
    /// handle on the bus is dropped: with the failure, reported as the
    /// engine's; or, after the last call, with a session where the operation
    /// was the mounting of the card, and else with the count of bytes moved.
    /// What an operation that is over reports is its [`outcome`] on the
    /// replies that it got.
    pub fn completed(self, reply: Reply) -> (next: Next<'s, 'a, B>)
        ensures
            next matches Next::Call(held) ==> reply is Ok && self.replies().len() + 1
                < self.operation().plan().len() && held.operation() == self.operation()
                && held.replies() == self.replies().push(reply) && held.bus() == self.bus(),
            next is Mounted ==> reply is Ok && self.replies().len() + 1
                == self.operation().plan().len() && self.operation() is New,
            next matches Next::Done(result) ==> result == outcome(
                self.operation(),
                Ok(()),
                self.replies().push(reply),
            ) && (reply is Err || (self.replies().len() + 1 == self.operation().plan().len()
                && !(self.operation() is New))),
    {
        proof {
            use_type_invariant(&self.at);
        }
        let ghost replies = self.at.replies@.push(reply);
        proof {
            reveal_with_fuel(settle, 2);
            lemma_settle_skips_successes(self.at.op, replies, self.at.done as nat);
            lemma_moved_of_prefix(self.at.op, self.at.replies@, replies, self.at.done as nat);
        }
        match reply {
            Err(e) => Next::Done(Err(SdCardError::from(e))),
            Ok(n) => {
                let count: usize = if self.call().transfers() {
                    n
                } else {
                    self.at.count
                };
                if self.at.done + 1 < self.at.op.calls() {
                    Next::Call(
                        Held {
                            at: Cursor {
                                op: self.at.op,
                                done: self.at.done + 1,
                                count,
                                replies: Ghost(replies),
                            },
                            bus: self.bus,
                            session: core::marker::PhantomData,
                        },
                    )
                } else {
                    match self.at.op {
                        Operation::New => Next::Mounted(SdCard::mounted()),
                        _ => Next::Done(Ok(count)),
                    }
                }
            },
        }
    }
}

} // verus!
