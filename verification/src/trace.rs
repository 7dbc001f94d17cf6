//! What a device handle has been asked to do: the model the command set's
//! contracts are stated over.
//!
//! A handle keeps, for the proofs only, the sequence of primitive transfers
//! issued on it, each with its outcome, in the order they were issued. A
//! named operation is then specified by what it appends to this sequence
//! and by how its result follows from the outcomes it met.

use crate::bits::decoded;
use crate::error::{AdxlError, AdxlResult};
use crate::wire::{signed, unsigned};
use vstd::prelude::*;

verus! {

/// One primitive transfer and how it ended.
pub enum Transfer {
    /// One byte read from one register.
    Read { register: u8, reply: AdxlResult<u8> },
    /// The six acceleration data registers read in one transaction.
    Burst { sample: AdxlResult<(i16, i16, i16)> },
    /// One byte written to one register.
    Write { target: u8, byte: u8, outcome: AdxlResult<()> },
}

/// A device handle with its record of transfers.
pub trait Traced {
    /// Every primitive transfer issued on this handle so far, oldest first.
    ///
    /// A binding that is verified says here what it records. One that is
    /// not has nothing to say, and takes the empty default.
    open spec fn trace(&self) -> Seq<Transfer> {
        Seq::empty()
    }
}

/// `after` continues `before`: nothing recorded earlier was lost or changed.
pub open spec fn grew<T>(before: Seq<T>, after: Seq<T>) -> bool {
    before.len() <= after.len() && after.take(before.len() as int) == before
}

/// What `after` holds beyond `before`.
pub open spec fn since<T>(before: Seq<T>, after: Seq<T>) -> Seq<T> {
    after.skip(before.len() as int)
}

/// `after` is `before` and one more transfer: a read of `register`.
pub open spec fn read_one(before: Seq<Transfer>, after: Seq<Transfer>, register: u8) -> bool {
    &&& after.len() == before.len() + 1
    &&& after.drop_last() == before
    &&& after.last() is Read
    &&& after.last()->register == register
}

/// The reply to the latest register read.
pub open spec fn answer(after: Seq<Transfer>) -> AdxlResult<u8> {
    after.last()->reply
}

/// A reply checked against a register's mask.
pub open spec fn decoded_reply(mask: u8, reply: AdxlResult<u8>) -> AdxlResult<u8> {
    match reply {
        Ok(byte) => decoded(mask, byte),
        Err(e) => Err(e),
    }
}

/// A reply taken as a two's complement value.
pub open spec fn signed_reply(reply: AdxlResult<u8>) -> AdxlResult<i8> {
    match reply {
        Ok(byte) => Ok(signed(byte)),
        Err(e) => Err(e),
    }
}

/// The raw byte under a typed result.
pub open spec fn raw<T: View<V = u8>>(r: AdxlResult<T>) -> AdxlResult<u8> {
    match r {
        Ok(v) => Ok(v@),
        Err(e) => Err(e),
    }
}

/// `added` reads `registers` one by one, in order, and stops after the first
/// read that fails.
pub open spec fn fetched(added: Seq<Transfer>, registers: Seq<u8>) -> bool {
    &&& 0 < added.len() <= registers.len()
    &&& forall|i: int|
        0 <= i < added.len() ==> (#[trigger] added[i]) is Read && added[i]->register
            == registers[i]
    &&& forall|i: int| 0 <= i < added.len() - 1 ==> (#[trigger] added[i])->reply is Ok
    &&& added.len() < registers.len() ==> added.last()->reply is Err
}

/// What a run of reads yields: the error it stopped at, or every byte read.
pub open spec fn replies(added: Seq<Transfer>) -> AdxlResult<Seq<u8>> {
    match added.last()->reply {
        Err(e) => Err(e),
        Ok(_) => Ok(Seq::new(added.len(), |i: int| added[i]->reply->Ok_0)),
    }
}

/// Between `before` and `after`, `registers` were read one by one, in order,
/// up to the first read that failed, and nothing else was transferred.
pub open spec fn read_run(
    before: Seq<Transfer>,
    after: Seq<Transfer>,
    registers: Seq<u8>,
) -> bool {
    grew(before, after) && fetched(since(before, after), registers)
}

/// What the reads between `before` and `after` yield.
pub open spec fn read_replies(before: Seq<Transfer>, after: Seq<Transfer>) -> AdxlResult<
    Seq<u8>,
> {
    replies(since(before, after))
}

/// `added` issues `commands` one by one, in order, and stops after the first
/// write that fails.
pub open spec fn issued(added: Seq<Transfer>, commands: Seq<(u8, u8)>) -> bool {
    &&& added.len() <= commands.len()
    &&& commands.len() > 0 ==> added.len() > 0
    &&& forall|i: int|
        0 <= i < added.len() ==> {
            &&& (#[trigger] added[i]) is Write
            &&& added[i]->target == commands[i].0
            &&& added[i]->byte == commands[i].1
        }
    &&& forall|i: int| 0 <= i < added.len() - 1 ==> (#[trigger] added[i])->outcome is Ok
    &&& added.len() < commands.len() ==> added.last()->outcome is Err
}

/// How a run of writes ends: as its last write did, or well if there was none.
pub open spec fn outcome(added: Seq<Transfer>) -> AdxlResult<()> {
    if added.len() == 0 {
        Ok(())
    } else {
        added.last()->outcome
    }
}

/// `after` is `before` and one more transfer: a write of `byte` to
/// `register`, that ended as `outcome`.
pub open spec fn wrote_one(
    before: Seq<Transfer>,
    after: Seq<Transfer>,
    register: u8,
    byte: u8,
    outcome: AdxlResult<()>,
) -> bool {
    after == before.push(Transfer::Write { target: register, byte, outcome })
}

/// Nothing was transferred between `before` and `after`, because `byte` has
/// a bit that its register does not define; `r` says so.
pub open spec fn refused(
    before: Seq<Transfer>,
    after: Seq<Transfer>,
    byte: u8,
    r: AdxlResult<()>,
) -> bool {
    after == before && r == Err::<(), AdxlError>(AdxlError::UnknownModeBit(byte))
}

/// Between `before` and `after`, `commands` were issued one by one, in order,
/// up to the first write that failed, and nothing else was transferred.
pub open spec fn write_run(
    before: Seq<Transfer>,
    after: Seq<Transfer>,
    commands: Seq<(u8, u8)>,
) -> bool {
    grew(before, after) && issued(since(before, after), commands)
}

/// How the writes between `before` and `after` end.
pub open spec fn write_outcome(before: Seq<Transfer>, after: Seq<Transfer>) -> AdxlResult<()> {
    outcome(since(before, after))
}

/// A write of a signed value to `register`, or no write.
pub open spec fn axis_command(register: u8, value: Option<i8>) -> Seq<(u8, u8)> {
    match value {
        Some(v) => seq![(register, unsigned(v))],
        None => seq![],
    }
}

/// Writes of zero to every register from `first` to `last`.
pub open spec fn zeroes(first: u8, last: u8) -> Seq<(u8, u8)> {
    Seq::new((last - first + 1) as nat, |i: int| ((first + i) as u8, 0u8))
}

/// The first `k` of `registers` were read after `start`, each with success.
pub open spec fn reads_done(
    start: Seq<Transfer>,
    now: Seq<Transfer>,
    registers: Seq<u8>,
    k: int,
) -> bool {
    &&& now.len() == start.len() + k
    &&& grew(start, now)
    &&& forall|i: int|
        0 <= i < k ==> {
            &&& (#[trigger] now[start.len() + i]) is Read
            &&& now[start.len() + i]->register == registers[i]
            &&& now[start.len() + i]->reply is Ok
        }
}

/// The first `k` of `commands` were issued after `start`, each with success.
pub open spec fn writes_done(
    start: Seq<Transfer>,
    now: Seq<Transfer>,
    commands: Seq<(u8, u8)>,
    k: int,
) -> bool {
    &&& now.len() == start.len() + k
    &&& grew(start, now)
    &&& forall|i: int|
        0 <= i < k ==> {
            &&& (#[trigger] now[start.len() + i]) is Write
            &&& now[start.len() + i]->target == commands[i].0
            &&& now[start.len() + i]->byte == commands[i].1
            &&& now[start.len() + i]->outcome is Ok
        }
}

/// A success that carries no value is the one value `Ok(())`.
pub proof fn lemma_unit_ok(r: AdxlResult<()>)
    requires
        r is Ok,
    ensures
        r == Ok::<(), AdxlError>(()),
{
    assert(r->Ok_0 == ());
}

/// Appending one register read is a `read_one`, answered by that read's reply.
pub proof fn lemma_read_one(before: Seq<Transfer>, register: u8, reply: AdxlResult<u8>)
    ensures
        read_one(before, before.push(Transfer::Read { register, reply }), register),
        answer(before.push(Transfer::Read { register, reply })) == reply,
{
    assert(before.push(Transfer::Read { register, reply }).drop_last() =~= before);
}

/// Before anything is read, no read of a run is done.
pub proof fn lemma_reads_start(start: Seq<Transfer>, registers: Seq<u8>)
    ensures
        reads_done(start, start, registers, 0),
{
    assert(start.take(start.len() as int) =~= start);
}

/// One more read of a run: success carries the run on, failure ends it.
pub proof fn lemma_reads_step(
    start: Seq<Transfer>,
    mid: Seq<Transfer>,
    now: Seq<Transfer>,
    registers: Seq<u8>,
    k: int,
)
    requires
        0 <= k < registers.len(),
        reads_done(start, mid, registers, k),
        read_one(mid, now, registers[k]),
    ensures
        forall|j: int| 0 <= j < mid.len() ==> #[trigger] now[j] == mid[j],
        now[start.len() + k] == now.last(),
        answer(now) is Ok ==> reads_done(start, now, registers, k + 1),
        answer(now) is Err ==> {
            &&& read_run(start, now, registers)
            &&& read_replies(start, now) == Err::<Seq<u8>, AdxlError>(answer(now)->Err_0)
        },
{
    assert forall|j: int| 0 <= j < mid.len() implies #[trigger] now[j] == mid[j] by {
        assert(now.drop_last()[j] == now[j]);
    }
    assert(now.take(start.len() as int) =~= mid.take(start.len() as int));
    let added = since(start, now);
    assert(added.len() == k + 1);
    assert forall|i: int| 0 <= i < k + 1 implies #[trigger] added[i] == now[start.len() + i] by {}
    assert(added.last() == now.last());
}

/// A run whose every read succeeded yields every byte read, in order.
pub proof fn lemma_reads_end(start: Seq<Transfer>, now: Seq<Transfer>, registers: Seq<u8>)
    requires
        registers.len() > 0,
        reads_done(start, now, registers, registers.len() as int),
    ensures
        read_run(start, now, registers),
        read_replies(start, now) == Ok::<Seq<u8>, AdxlError>(
            Seq::new(registers.len(), |i: int| now[start.len() + i]->reply->Ok_0),
        ),
{
    let added = since(start, now);
    assert forall|i: int| 0 <= i < added.len() implies #[trigger] added[i] == now[start.len()
        + i] by {}
    assert(added.last() == now[start.len() + (added.len() - 1)]);
    assert(Seq::new(added.len(), |i: int| added[i]->reply->Ok_0) =~= Seq::new(
        registers.len(),
        |i: int| now[start.len() + i]->reply->Ok_0,
    ));
}

/// Before anything is written, no write of a run is done.
pub proof fn lemma_writes_start(start: Seq<Transfer>, commands: Seq<(u8, u8)>)
    ensures
        writes_done(start, start, commands, 0),
{
    assert(start.take(start.len() as int) =~= start);
}

/// One more write of a run: success carries the run on, failure ends it.
pub proof fn lemma_writes_step(
    start: Seq<Transfer>,
    mid: Seq<Transfer>,
    now: Seq<Transfer>,
    commands: Seq<(u8, u8)>,
    k: int,
    end: AdxlResult<()>,
)
    requires
        0 <= k < commands.len(),
        writes_done(start, mid, commands, k),
        wrote_one(mid, now, commands[k].0, commands[k].1, end),
    ensures
        end is Ok ==> writes_done(start, now, commands, k + 1),
        end is Err ==> write_run(start, now, commands) && write_outcome(start, now) == end,
{
    let w = Transfer::Write { target: commands[k].0, byte: commands[k].1, outcome: end };
    assert(now.take(start.len() as int) =~= mid.take(start.len() as int));
    let added = since(start, now);
    assert(added.len() == k + 1);
    assert forall|i: int| 0 <= i < k + 1 implies #[trigger] added[i] == now[start.len() + i] by {}
    assert forall|i: int| 0 <= i < k implies #[trigger] now[start.len() + i] == mid[start.len()
        + i] by {}
    assert(added.last() == w);
}

/// A run whose every write succeeded is complete and ends well.
pub proof fn lemma_writes_end(start: Seq<Transfer>, now: Seq<Transfer>, commands: Seq<(u8, u8)>)
    requires
        writes_done(start, now, commands, commands.len() as int),
    ensures
        write_run(start, now, commands),
        write_outcome(start, now) == Ok::<(), AdxlError>(()),
{
    let added = since(start, now);
    assert forall|i: int| 0 <= i < added.len() implies #[trigger] added[i] == now[start.len()
        + i] by {}
    if added.len() > 0 {
        assert(added.last() == now[start.len() + (added.len() - 1)]);
        lemma_unit_ok(added.last()->outcome);
    }
}

} // verus!
