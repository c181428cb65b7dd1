//! What holds of every operation, whatever the bus and the engine answer.

use crate::error::SdCardError;
use crate::plan::Call;
use crate::plan::Operation;
use crate::transaction::made;
use crate::transaction::moved;
use crate::transaction::outcome;
use crate::transaction::settle;
use crate::transaction::Reply;
use embedded_sdmmc::Mode;
use vstd::prelude::*;

verus! {

/// An operation that does not get the bus makes no engine call and reports
/// the transport's failure, whatever the engine would have answered.
pub proof fn lemma_no_bus_no_call(op: Operation<'_>, e: embedded_sdmmc::SdMmcError, replies: Seq<Reply>)
    ensures
        outcome(op, Err(e), replies) == Err::<usize, SdCardError>(SdCardError::SdMmc(e)),
        forall|i: int| !made(op, Err(e), replies, i),
{
}

/// The first engine call that fails ends the operation: its failure is the
/// operation's result, as the engine's, and no later call of the plan is
/// made.
pub proof fn lemma_first_failure_decides(
    op: Operation<'_>,
    replies: Seq<Reply>,
    i: int,
    e: embedded_sdmmc::Error<embedded_sdmmc::SdMmcError>,
)
    requires
        0 <= i < op.plan().len(),
        i < replies.len(),
        forall|j: int| 0 <= j < i ==> (#[trigger] replies[j]) is Ok,
        replies[i] == Err::<usize, embedded_sdmmc::Error<embedded_sdmmc::SdMmcError>>(e),
    ensures
        outcome(op, Ok(()), replies) == Err::<usize, SdCardError>(SdCardError::Controller(e)),
        made(op, Ok(()), replies, i),
        forall|k: int| i < k ==> !made(op, Ok(()), replies, k),
{
    reveal_with_fuel(settle, 4);
    reveal_with_fuel(moved, 4);
}

/// An operation succeeds exactly when the bus is acquired and every call of
/// its plan succeeds: the session adds no failure of its own. Every call of
/// the plan is then made.
pub proof fn lemma_success_is_the_engines(
    op: Operation<'_>,
    bus: Result<(), embedded_sdmmc::SdMmcError>,
    replies: Seq<Reply>,
)
    requires
        op.plan().len() <= replies.len(),
    ensures
        outcome(op, bus, replies) is Ok <==> bus is Ok && forall|i: int|
            0 <= i < op.plan().len() ==> (#[trigger] replies[i]) is Ok,
        outcome(op, bus, replies) is Ok ==> forall|i: int|
            0 <= i < op.plan().len() ==> made(op, bus, replies, i),
{
    reveal_with_fuel(settle, 4);
    reveal_with_fuel(moved, 4);
}

/// The count that an operation reports is the count that the engine reported
/// of the write or the read in its plan, and 0 where the plan has neither.
pub proof fn lemma_count_is_the_transfers(op: Operation<'_>, replies: Seq<Reply>, i: int)
    requires
        op.plan().len() <= replies.len(),
        forall|j: int| 0 <= j < op.plan().len() ==> (#[trigger] replies[j]) is Ok,
    ensures
        0 <= i < op.plan().len() && op.plan()[i].transfers() ==> outcome(op, Ok(()), replies)
            == Ok::<usize, SdCardError>(replies[i]->Ok_0),
        (forall|j: int| 0 <= j < op.plan().len() ==> !(#[trigger] op.plan()[j]).transfers())
            ==> outcome(op, Ok(()), replies) == Ok::<usize, SdCardError>(0),
{
    reveal_with_fuel(settle, 4);
    reveal_with_fuel(moved, 4);
}

/// Opening a file and closing it at once both succeed where the bus is
/// acquired and the engine opens and closes the file, in every mode. Each of
/// the two makes its one call and no other.
pub proof fn lemma_open_then_close(name: &str, mode: Mode, opened: Reply, closed: Reply)
    requires
        opened is Ok,
        closed is Ok,
    ensures
        outcome(Operation::OpenFile(name, mode), Ok(()), seq![opened]) is Ok,
        outcome(Operation::CloseFile, Ok(()), seq![closed]) is Ok,
        Operation::OpenFile(name, mode).plan() == seq![Call::OpenFile(name, mode)],
        Operation::CloseFile.plan() == seq![Call::CloseFile],
{
    reveal_with_fuel(settle, 2);
    reveal_with_fuel(moved, 2);
}

/// A read reports the count that the engine reports, zero included: the end
/// of the file is no failure.
pub proof fn lemma_read_reports_engine_count(name: &str, n: usize, opened: Reply, closed: Reply)
    requires
        opened is Ok,
        closed is Ok,
    ensures
        outcome(Operation::Read, Ok(()), seq![Ok(n)]) == Ok::<usize, SdCardError>(n),
        outcome(Operation::ReadFile(name), Ok(()), seq![opened, Ok(n), closed]) == Ok::<
            usize,
            SdCardError,
        >(n),
{
    reveal_with_fuel(settle, 4);
    reveal_with_fuel(moved, 4);
}

/// A write that the engine refuses fails as the engine's failure, alone or
/// within the writing of a file in one go, and nothing follows it: the file
/// is not closed by the operation.
pub proof fn lemma_refused_write_is_engine_failure(
    name: &str,
    bytes: &[u8],
    e: embedded_sdmmc::Error<embedded_sdmmc::SdMmcError>,
    opened: Reply,
    closed: Reply,
)
    requires
        opened is Ok,
    ensures
        outcome(Operation::Write(bytes), Ok(()), seq![Err(e)]) == Err::<usize, SdCardError>(
            SdCardError::Controller(e),
        ),
        outcome(Operation::WriteFile(name, bytes), Ok(()), seq![opened, Err(e), closed]) == Err::<
            usize,
            SdCardError,
        >(SdCardError::Controller(e)),
        !made(Operation::WriteFile(name, bytes), Ok(()), seq![opened, Err(e), closed], 2),
{
    reveal_with_fuel(settle, 4);
    reveal_with_fuel(moved, 4);
}

/// Writing a file in one go asks of the engine what opening the file to
/// append, writing the bytes and closing the file ask of it: the same calls
/// with the same name, mode and bytes, in the same order. It reports what the
/// three operations report one after the other to a caller who stops at the
/// first failure: that failure, or else the count of the write. The one
/// difference is that the bus is acquired once, not three times.
pub proof fn lemma_write_file_is_open_write_close(
    name: &str,
    bytes: &[u8],
    opened: Reply,
    written: Reply,
    closed: Reply,
)
    ensures
        Operation::WriteFile(name, bytes).plan() == Operation::OpenFile(
            name,
            Mode::ReadWriteCreateOrAppend,
        ).plan() + Operation::Write(bytes).plan() + Operation::CloseFile.plan(),
        outcome(Operation::WriteFile(name, bytes), Ok(()), seq![opened, written, closed])
            == in_turn(
            outcome(
                Operation::OpenFile(name, Mode::ReadWriteCreateOrAppend),
                Ok(()),
                seq![opened],
            ),
            outcome(Operation::Write(bytes), Ok(()), seq![written]),
            outcome(Operation::CloseFile, Ok(()), seq![closed]),
        ),
{
    reveal_with_fuel(settle, 4);
    reveal_with_fuel(moved, 4);
}

/// Reading a file in one go asks of the engine what opening the file to
/// read, reading from it and closing it ask of it, in the same order, and
/// reports what the three operations report one after the other to a caller
/// who stops at the first failure: that failure, or else the count of the
/// read.
pub proof fn lemma_read_file_is_open_read_close(
    name: &str,
    opened: Reply,
    read: Reply,
    closed: Reply,
)
    ensures
        Operation::ReadFile(name).plan() == Operation::OpenFile(name, Mode::ReadOnly).plan()
            + Operation::Read.plan() + Operation::CloseFile.plan(),
        outcome(Operation::ReadFile(name), Ok(()), seq![opened, read, closed]) == in_turn(
            outcome(Operation::OpenFile(name, Mode::ReadOnly), Ok(()), seq![opened]),
            outcome(Operation::Read, Ok(()), seq![read]),
            outcome(Operation::CloseFile, Ok(()), seq![closed]),
        ),
{
    reveal_with_fuel(settle, 4);
    reveal_with_fuel(moved, 4);
}

/// What a caller has who opens a file, transfers once and closes the file as
/// three operations, and stops at the first that fails: that failure, or
/// else the count of the transfer.
pub open spec fn in_turn(
    opened: Result<usize, SdCardError>,
    transferred: Result<usize, SdCardError>,
    closed: Result<usize, SdCardError>,
) -> Result<usize, SdCardError> {
    if opened is Err {
        opened
    } else if transferred is Err {
        transferred
    } else if closed is Err {
        closed
    } else {
        transferred
    }
}

/// A card whose first volume cannot be mounted gives no session: the
/// operation ends at that call with the engine's failure, and the root
/// directory is never opened.
pub proof fn lemma_unmountable_card_gives_no_session(
    e: embedded_sdmmc::Error<embedded_sdmmc::SdMmcError>,
    replies: Seq<Reply>,
)
    requires
        0 < replies.len(),
        replies[0] == Err::<usize, embedded_sdmmc::Error<embedded_sdmmc::SdMmcError>>(e),
    ensures
        outcome(Operation::New, Ok(()), replies) == Err::<usize, SdCardError>(
            SdCardError::Controller(e),
        ),
        !made(Operation::New, Ok(()), replies, 1),
{
    reveal_with_fuel(settle, 2);
    reveal_with_fuel(moved, 2);
}

} // verus!
