//! The spill writer of a group-by aggregation.
//!
//! When the state of a partial aggregation outgrows memory, a bucket of
//! its hash table is written to external storage. The writer stands in the
//! pipeline between the aggregation and whatever consumes it. It hands
//! ordinary blocks on. For a block that carries a bucket to spill it lays
//! the bucket's columns out as one run of bytes, has that run written, and
//! hands on a block that says where the bucket now is.
//!
//! The writer is a state machine that a scheduler polls. The decisions are
//! made here; the ports and the storage belong to the caller.

use crate::error::{ErrorCode, INTERNAL};
use vstd::prelude::*;
use vstd::string::*;

verus! {

/// What a processor tells the scheduler when it is polled.
#[derive(Clone, Copy, Debug, PartialEq, Eq, Structural)]
pub enum Event {
    Finished,
    NeedData,
    NeedConsume,
    Sync,
    Async,
}

/// The phases of the spill writer.
#[derive(Clone, Copy, Debug, PartialEq, Eq, Structural)]
pub enum Phase {
    /// Nothing to spill is at hand.
    Idle,
    /// A bucket has been received and is to be laid out.
    Serializing,
    /// The bucket's bytes are being written.
    WritingAsync,
}

/// A bucket of the hash table: its number and its columns, each as bytes.
#[derive(Debug, PartialEq, Eq)]
pub struct HashTablePayload {
    pub bucket: isize,
    pub columns: Vec<Vec<u8>>,
}

/// What a block says of the aggregation state it carries.
#[derive(Debug, PartialEq, Eq)]
pub enum AggregateMeta {
    /// A bucket in memory.
    HashTable(HashTablePayload),
    /// A bucket that is to be written to storage.
    Spilling(HashTablePayload),
    /// A bucket on storage: where it is, and how long each column is.
    Spilled { bucket: isize, location: String, columns_layout: Vec<usize> },
}

/// A write that is to be handed to the storage.
#[derive(Debug, PartialEq, Eq)]
pub struct SpillWrite {
    pub location: String,
    pub data: Vec<u8>,
}

/// What the ports of the writer show when it is polled.
#[derive(Clone, Copy, Debug, PartialEq, Eq, Structural)]
pub struct Ports {
    pub output_finished: bool,
    pub output_can_push: bool,
    pub input_has_data: bool,
    pub input_finished: bool,
}

/// What the caller has to do after a poll.
#[derive(Debug, PartialEq, Eq)]
pub enum Action {
    /// Finish the input.
    FinishInput,
    /// Tell the input that no data is needed.
    SetNotNeedData,
    /// Push the block with this meta to the output.
    PushSpilled(AggregateMeta),
    /// Pull a block from the input and report it with `pulled`.
    Pull,
    /// Finish the output.
    FinishOutput,
    /// Tell the input that data is needed.
    SetNeedData,
}

/// What the caller has to do with a block it has pulled.
#[derive(Debug, PartialEq, Eq)]
pub enum Pulled {
    /// Tell the input that no data is needed; the bucket is kept here.
    Keep,
    /// Push the block to the output as it is.
    Forward,
}

/// The bytes of the columns, one column after another.
pub open spec fn laid_out(columns: Seq<Seq<u8>>) -> Seq<u8>
    decreases columns.len(),
{
    if columns.len() == 0 {
        Seq::empty()
    } else {
        laid_out(columns.drop_last()) + columns.last()
    }
}

/// The length of each column.
pub open spec fn layout_of(columns: Seq<Seq<u8>>) -> Seq<usize> {
    Seq::new(columns.len(), |i: int| columns[i].len() as usize)
}

/// The sum of the lengths.
pub open spec fn total(layout: Seq<usize>) -> nat
    decreases layout.len(),
{
    if layout.len() == 0 {
        0
    } else {
        total(layout.drop_last()) + layout.last() as nat
    }
}

/// The run of bytes cut into columns of the given lengths; `None` where
/// the lengths do not add up to the length of the run.
pub open spec fn cut(data: Seq<u8>, layout: Seq<usize>) -> Option<Seq<Seq<u8>>>
    decreases layout.len(),
{
    if layout.len() == 0 {
        if data.len() == 0 {
            Some(Seq::empty())
        } else {
            None
        }
    } else if layout.last() > data.len() {
        None
    } else {
        let at = data.len() - layout.last();
        match cut(data.subrange(0, at), layout.drop_last()) {
            Some(columns) => Some(columns.push(data.subrange(at, data.len() as int))),
            None => None,
        }
    }
}

/// The contents of the columns.
pub open spec fn columns_view(columns: Vec<Vec<u8>>) -> Seq<Seq<u8>> {
    Seq::new(columns.len() as nat, |i: int| columns[i]@)
}

/// The place where a bucket is written: the prefix, a slash, the name.
pub open spec fn location_of(prefix: Seq<char>, name: Seq<char>) -> Seq<char> {
    prefix + "/"@ + name
}

/// Cutting a run of bytes by the layout of the columns it was laid out
/// from gives the columns back.
pub proof fn cut_restores(columns: Seq<Seq<u8>>)
    requires
        forall|i: int| 0 <= i < columns.len() ==> columns[i].len() <= usize::MAX,
    ensures
        cut(laid_out(columns), layout_of(columns)) == Some(columns),
        laid_out(columns).len() == total(layout_of(columns)),
    decreases columns.len(),
{
    if columns.len() > 0 {
        let init = columns.drop_last();
        cut_restores(init);
        let data = laid_out(columns);
        let layout = layout_of(columns);
        assert(layout.drop_last() =~= layout_of(init));
        assert(layout.last() == columns.last().len());
        let at = data.len() - layout.last();
        assert(data.subrange(0, at) =~= laid_out(init));
        assert(data.subrange(at, data.len() as int) =~= columns.last());
        assert(init.push(columns.last()) =~= columns);
    } else {
        assert(layout_of(columns) =~= Seq::empty());
    }
}

/// A run of bytes can be cut exactly when the lengths add up to its
/// length, and the pieces then have the lengths asked for.
pub proof fn cut_exists(data: Seq<u8>, layout: Seq<usize>)
    ensures
        cut(data, layout) is Some <==> total(layout) == data.len(),
        cut(data, layout) is Some ==> layout_of(cut(data, layout)->Some_0) == layout && laid_out(
            cut(data, layout)->Some_0,
        ) == data,
    decreases layout.len(),
{
    if layout.len() > 0 {
        if layout.last() <= data.len() {
            let at = data.len() - layout.last();
            cut_exists(data.subrange(0, at), layout.drop_last());
            if cut(data, layout) is Some {
                let columns = cut(data, layout)->Some_0;
                let init = cut(data.subrange(0, at), layout.drop_last())->Some_0;
                assert(columns.drop_last() =~= init);
                assert(layout_of(init) == layout.drop_last());
                assert forall|i: int| 0 <= i < layout.len() implies layout_of(columns)[i]
                    == layout[i] by {
                    if i < init.len() {
                        assert(layout_of(init)[i] == layout.drop_last()[i]);
                        assert(columns[i] == init[i]);
                    }
                }
                assert(layout_of(columns) =~= layout);
                assert(laid_out(columns) =~= data);
            }
        } else {
            total_bounds(layout);
        }
    } else {
        if data.len() == 0 {
            assert(layout_of(Seq::<Seq<u8>>::empty()) =~= layout);
            assert(laid_out(Seq::<Seq<u8>>::empty()) =~= data);
        }
    }
}

/// The sum of the lengths is at least the last length.
pub proof fn total_bounds(layout: Seq<usize>)
    requires
        layout.len() > 0,
    ensures
        total(layout) >= layout.last(),
{
}

/// Lays the columns of a bucket out for writing: gives the bucket's
/// number, the length of each column, and the bytes of all columns in one
/// run.
pub fn serialize_spill_file(payload: &HashTablePayload) -> (r: (isize, Vec<usize>, Vec<u8>))
    ensures
        r.0 == payload.bucket,
        r.1@ == layout_of(columns_view(payload.columns)),
        r.2@ == laid_out(columns_view(payload.columns)),
{
    let ghost all = columns_view(payload.columns);
    let mut layout: Vec<usize> = Vec::new();
    let mut data: Vec<u8> = Vec::new();
    let mut i: usize = 0;
    proof {
        assert(all.take(0) =~= Seq::empty());
        assert(layout@ =~= layout_of(all.take(0)));
    }
    while i < payload.columns.len()
        invariant
            i <= payload.columns.len(),
            all == columns_view(payload.columns),
            layout@ == layout_of(all.take(i as int)),
            data@ == laid_out(all.take(i as int)),
        decreases payload.columns.len() - i,
    {
        let column = &payload.columns[i];
        layout.push(column.len());
        let mut copy = column.clone();
        data.append(&mut copy);
        proof {
            assert(copy@ =~= Seq::empty());
            assert(all.take(i + 1).drop_last() =~= all.take(i as int));
            assert(all.take(i + 1).last() == column@);
            assert(layout@ =~= layout_of(all.take(i + 1)));
        }
        i = i + 1;
    }
    assert(all.take(payload.columns.len() as int) =~= all);
    (payload.bucket, layout, data)
}

/// Cuts a run of bytes that was read back from storage into columns of
/// the lengths that the layout gives.
pub fn restore_columns(data: &Vec<u8>, layout: &Vec<usize>) -> (r: Option<Vec<Vec<u8>>>)
    ensures
        match cut(data@, layout@) {
            Some(columns) => r is Some && columns_view(r->Some_0) == columns,
            None => r is None,
        },
{
    let mut reversed: Vec<Vec<u8>> = Vec::new();
    let mut end: usize = data.len();
    let mut k: usize = layout.len();
    proof {
        assert(data@.subrange(0, end as int) =~= data@);
        assert(layout@.take(k as int) =~= layout@);
        if cut(data@, layout@) is Some {
            assert(cut(data@, layout@)->Some_0 + Seq::new(
                0,
                |i: int| reversed[reversed.len() - 1 - i]@,
            ) =~= cut(data@, layout@)->Some_0);
        }
    }
    // Walks the layout from its end.
    while k > 0
        invariant
            k <= layout.len(),
            end <= data.len(),
            reversed.len() == layout.len() - k,
            match cut(data@.subrange(0, end as int), layout@.take(k as int)) {
                Some(front) => cut(data@, layout@) is Some && cut(data@, layout@)->Some_0 == front
                    + Seq::new(
                    reversed.len() as nat,
                    |i: int| reversed[reversed.len() - 1 - i]@,
                ),
                None => cut(data@, layout@) is None,
            },
        decreases k,
    {
        let len = layout[k - 1];
        let ghost part = data@.subrange(0, end as int);
        let ghost lay = layout@.take(k as int);
        proof {
            assert(lay.last() == len);
            assert(lay.drop_last() =~= layout@.take(k - 1));
        }
        if len > end {
            return None;
        }
        let start = end - len;
        let mut column: Vec<u8> = Vec::new();
        let mut p: usize = start;
        while p < end
            invariant
                start <= p <= end,
                end <= data.len(),
                column@ == data@.subrange(start as int, p as int),
            decreases end - p,
        {
            column.push(data[p]);
            assert(column@ =~= data@.subrange(start as int, p + 1));
            p = p + 1;
        }
        proof {
            assert(part.subrange(0, start as int) =~= data@.subrange(0, start as int));
            assert(part.subrange(start as int, end as int) =~= column@);
            let old_tail = Seq::new(
                reversed.len() as nat,
                |i: int| reversed[reversed.len() - 1 - i]@,
            );
            let new_tail = Seq::new(
                (reversed.len() + 1) as nat,
                |i: int|
                    if i == 0 {
                        column@
                    } else {
                        reversed[reversed.len() - i]@
                    },
            );
            assert(new_tail =~= seq![column@] + old_tail);
            match cut(data@.subrange(0, start as int), layout@.take(k - 1)) {
                Some(front) => {
                    assert(front.push(column@) + old_tail =~= front + new_tail);
                },
                None => {},
            }
        }
        let ghost before = reversed;
        reversed.push(column);
        proof {
            assert(Seq::new(
                reversed.len() as nat,
                |i: int| reversed[reversed.len() - 1 - i]@,
            ) =~= Seq::new(
                (before.len() + 1) as nat,
                |i: int|
                    if i == 0 {
                        column@
                    } else {
                        before[before.len() - i]@
                    },
            ));
        }
        end = start;
        k = k - 1;
    }
    proof {
        assert(layout@.take(0) =~= Seq::empty());
    }
    if end != 0 {
        return None;
    }
    proof {
        assert(data@.subrange(0, 0) =~= Seq::empty());
    }
    // The columns were collected last to first.
    let mut columns: Vec<Vec<u8>> = Vec::new();
    let ghost want = Seq::new(reversed.len() as nat, |i: int| reversed[reversed.len() - 1 - i]@);
    let n = reversed.len();
    let mut i: usize = 0;
    while i < n
        invariant
            i <= n,
            n == reversed.len(),
            columns.len() == i,
            forall|j: int| 0 <= j < i ==> columns[j]@ == reversed[n - 1 - j]@,
        decreases n - i,
    {
        let c = reversed[n - 1 - i].clone();
        columns.push(c);
        i = i + 1;
    }
    proof {
        assert(columns_view(columns) =~= want);
        assert(Seq::<Seq<u8>>::empty() + want =~= want);
    }
    Some(columns)
}

/// The writer: the prefix under which it writes, and what it holds
/// between two polls.
#[derive(Debug, PartialEq, Eq)]
pub struct TransformGroupBySpillWriter {
    pub location_prefix: String,
    /// The block that says where the bucket is, waiting to be pushed.
    pub output_block: Option<AggregateMeta>,
    /// The meta of the block that was received, waiting to be laid out.
    pub spilling_meta: Option<AggregateMeta>,
    /// The write that has been started and has not completed.
    pub spilling_future: Option<SpillWrite>,
}

/// The phase in which a writer is that holds, or does not hold, a bucket
/// to lay out and a write in flight.
pub open spec fn phase_of(has_meta: bool, writing: bool) -> Phase {
    if writing {
        Phase::WritingAsync
    } else if has_meta {
        Phase::Serializing
    } else {
        Phase::Idle
    }
}

/// What the writer tells the scheduler: the first of these that applies.
/// A finished output finishes the writer. An output that cannot take a
/// block asks to be consumed. A write in flight asks to be awaited. A block
/// waiting to be pushed is pushed. A bucket waiting to be laid out asks for
/// a synchronous step. Data at the input is pulled. A finished input
/// finishes the writer. Otherwise data is asked for.
pub open spec fn next_event(
    has_output: bool,
    has_meta: bool,
    writing: bool,
    ports: Ports,
) -> Event {
    if ports.output_finished {
        Event::Finished
    } else if !ports.output_can_push {
        Event::NeedConsume
    } else if writing {
        Event::Async
    } else if has_output {
        Event::NeedConsume
    } else if has_meta {
        Event::Sync
    } else if ports.input_has_data {
        Event::NeedConsume
    } else if ports.input_finished {
        Event::Finished
    } else {
        Event::NeedData
    }
}

/// Whether a poll pulls from the input or asks it for data.
pub open spec fn takes_input(has_output: bool, has_meta: bool, writing: bool, ports: Ports) -> bool {
    !ports.output_finished && ports.output_can_push && !writing && !has_output && !has_meta
        && !ports.input_finished_without_data()
}

impl Ports {
    /// Whether the input is finished and holds no data.
    pub open spec fn input_finished_without_data(self) -> bool {
        !self.input_has_data && self.input_finished
    }
}

impl TransformGroupBySpillWriter {
    /// A writer that writes under `location_prefix` and holds nothing.
    pub fn create(location_prefix: String) -> (w: TransformGroupBySpillWriter)
        ensures
            w.location_prefix@ == location_prefix@,
            w.output_block is None,
            w.spilling_meta is None,
            w.spilling_future is None,
            w.phase() == Phase::Idle,
    {
        TransformGroupBySpillWriter {
            location_prefix,
            output_block: None,
            spilling_meta: None,
            spilling_future: None,
        }
    }

    /// The name of the processor.
    pub fn name(&self) -> (s: String)
        ensures
            s@ == "TransformGroupBySpillWriter"@,
    {
        String::from_str("TransformGroupBySpillWriter")
    }

    /// The phase the writer is in.
    pub open spec fn phase(&self) -> Phase {
        phase_of(self.spilling_meta is Some, self.spilling_future is Some)
    }

    /// The phase the writer is in.
    pub fn current_phase(&self) -> (p: Phase)
        ensures
            p == self.phase(),
    {
        if self.spilling_future.is_some() {
            Phase::WritingAsync
        } else if self.spilling_meta.is_some() {
            Phase::Serializing
        } else {
            Phase::Idle
        }
    }

    /// Polls the writer: gives what it tells the scheduler and what the
    /// caller has to do to the ports.
    ///
    /// Only the block that waits to be pushed leaves the writer; nothing
    /// else of its state changes.
    pub fn event(&mut self, ports: Ports) -> (r: (Event, Action))
        ensures
            r.0 == next_event(
                old(self).output_block is Some,
                old(self).spilling_meta is Some,
                old(self).spilling_future is Some,
                ports,
            ),
            final(self).location_prefix == old(self).location_prefix,
            final(self).spilling_meta == old(self).spilling_meta,
            final(self).spilling_future == old(self).spilling_future,
            r.1 is PushSpilled <==> (!ports.output_finished && ports.output_can_push && old(self).spilling_future is None && old(self).output_block is Some),
            r.1 is PushSpilled ==> final(self).output_block is None && Some(r.1->PushSpilled_0)
                == old(self).output_block,
            !(r.1 is PushSpilled) ==> final(self).output_block == old(self).output_block,
            r.1 is Pull <==> (takes_input(
                old(self).output_block is Some,
                old(self).spilling_meta is Some,
                old(self).spilling_future is Some,
                ports,
            ) && ports.input_has_data),
            r.1 is SetNeedData <==> r.0 == Event::NeedData,
            r.1 is FinishInput <==> ports.output_finished,
            r.1 is FinishOutput <==> (r.0 == Event::Finished && !ports.output_finished),
    {
        if ports.output_finished {
            return (Event::Finished, Action::FinishInput);
        }
        if !ports.output_can_push {
            return (Event::NeedConsume, Action::SetNotNeedData);
        }
        if self.spilling_future.is_some() {
            return (Event::Async, Action::SetNotNeedData);
        }
        if self.output_block.is_some() {
            let block = self.output_block.take();
            match block {
                Some(meta) => {
                    return (Event::NeedConsume, Action::PushSpilled(meta));
                },
                None => {
                    return (Event::NeedConsume, Action::SetNotNeedData);
                },
            }
        }
        if self.spilling_meta.is_some() {
            return (Event::Sync, Action::SetNotNeedData);
        }
        if ports.input_has_data {
            return (Event::NeedConsume, Action::Pull);
        }
        if ports.input_finished {
            return (Event::Finished, Action::FinishOutput);
        }
        (Event::NeedData, Action::SetNeedData)
    }

    /// Takes the meta of a block that was pulled after `event` asked for
    /// it. A bucket to spill is kept, and the scheduler is asked for a
    /// synchronous step; any other block is to be handed on, and its meta is
    /// given back.
    pub fn pulled(&mut self, meta: Option<AggregateMeta>) -> (r: (Event, Pulled, Option<
        AggregateMeta,
    >))
        requires
            old(self).spilling_meta is None,
        ensures
            final(self).location_prefix == old(self).location_prefix,
            final(self).output_block == old(self).output_block,
            final(self).spilling_future == old(self).spilling_future,
            meta is Some && meta->Some_0 is Spilling ==> r.0 == Event::Sync && r.1 == Pulled::Keep
                && r.2 is None && final(self).spilling_meta == meta,
            !(meta is Some && meta->Some_0 is Spilling) ==> r.0 == Event::NeedConsume && r.1
                == Pulled::Forward && r.2 == meta && final(self).spilling_meta is None,
    {
        match meta {
            Some(AggregateMeta::Spilling(payload)) => {
                self.spilling_meta = Some(AggregateMeta::Spilling(payload));
                (Event::Sync, Pulled::Keep, None)
            },
            other => (Event::NeedConsume, Pulled::Forward, other),
        }
    }

    /// The synchronous step: lays the kept bucket out, and leaves behind
    /// the block that says where the bucket will be and the write that puts
    /// it there. `unique_name` is the name of the file to write.
    ///
    /// Without a kept bucket nothing happens. A kept meta that is not a
    /// bucket to spill is dropped with an internal error.
    pub fn process(&mut self, unique_name: &str) -> (r: Result<(), ErrorCode>)
        ensures
            final(self).location_prefix == old(self).location_prefix,
            final(self).spilling_meta is None,
            match old(self).spilling_meta {
                None => r is Ok && final(self).output_block == old(self).output_block && final(self).spilling_future == old(self).spilling_future,
                Some(AggregateMeta::Spilling(payload)) => {
                    &&& r is Ok
                    &&& final(self).output_block is Some
                    &&& final(self).output_block->Some_0 is Spilled
                    &&& final(self).output_block->Some_0->Spilled_bucket == payload.bucket
                    &&& final(self).output_block->Some_0->Spilled_location@ == location_of(
                        old(self).location_prefix@,
                        unique_name@,
                    )
                    &&& final(self).output_block->Some_0->Spilled_columns_layout@ == layout_of(
                        columns_view(payload.columns),
                    )
                    &&& final(self).spilling_future is Some
                    &&& final(self).spilling_future->Some_0.location@ == location_of(
                        old(self).location_prefix@,
                        unique_name@,
                    )
                    &&& final(self).spilling_future->Some_0.data@ == laid_out(
                        columns_view(payload.columns),
                    )
                },
                Some(_) => r is Err && r->Err_0.code == INTERNAL
                    && r->Err_0.message@ == "TransformGroupBySpillWriter only recv AggregateMeta"@
                    && final(self).output_block == old(self).output_block
                    && final(self).spilling_future == old(self).spilling_future,
            },
    {
        let meta = self.spilling_meta.take();
        match meta {
            None => Ok(()),
            Some(AggregateMeta::Spilling(payload)) => {
                let (output_block, spilling_future) = spilling_group_by_payload(
                    &self.location_prefix,
                    unique_name,
                    &payload,
                );
                self.output_block = Some(output_block);
                self.spilling_future = Some(spilling_future);
                Ok(())
            },
            Some(_) => Err(ErrorCode::internal("TransformGroupBySpillWriter only recv AggregateMeta")),
        }
    }

    /// The asynchronous step: hands out the write that is to be awaited.
    /// The writer is idle again once the write has been taken.
    pub fn async_process(&mut self) -> (r: Option<SpillWrite>)
        ensures
            r == old(self).spilling_future,
            final(self).spilling_future is None,
            final(self).location_prefix == old(self).location_prefix,
            final(self).output_block == old(self).output_block,
            final(self).spilling_meta == old(self).spilling_meta,
    {
        self.spilling_future.take()
    }
}

/// Prepares the spill of a bucket: gives the meta of the block that says
/// where the bucket will be, and the write that puts it there.
pub fn spilling_group_by_payload(
    location_prefix: &String,
    unique_name: &str,
    payload: &HashTablePayload,
) -> (r: (AggregateMeta, SpillWrite))
    ensures
        r.0 is Spilled,
        r.0->Spilled_bucket == payload.bucket,
        r.0->Spilled_location@ == location_of(location_prefix@, unique_name@),
        r.0->Spilled_columns_layout@ == layout_of(columns_view(payload.columns)),
        r.1.location@ == location_of(location_prefix@, unique_name@),
        r.1.data@ == laid_out(columns_view(payload.columns)),
{
    let (bucket, columns_layout, data) = serialize_spill_file(payload);
    let mut location = location_prefix.clone();
    location.append("/");
    location.append(unique_name);
    let written = location.clone();
    (
        AggregateMeta::Spilled { bucket, location, columns_layout },
        SpillWrite { location: written, data },
    )
}

/// Back-pressure: while a write is in flight, a block waits to be pushed
/// or a bucket waits to be laid out, a poll neither pulls from the input
/// nor asks it for data.
pub proof fn no_input_while_busy(has_output: bool, has_meta: bool, writing: bool, ports: Ports)
    requires
        has_output || has_meta || writing,
    ensures
        !takes_input(has_output, has_meta, writing, ports),
        next_event(has_output, has_meta, writing, ports) != Event::NeedData,
{
}

/// While a write is in flight and the output is open and free, every poll
/// says that the writer waits for the write.
pub proof fn write_is_awaited(has_output: bool, has_meta: bool, ports: Ports)
    requires
        !ports.output_finished,
        ports.output_can_push,
    ensures
        next_event(has_output, has_meta, true, ports) == Event::Async,
{
}

/// A finished output finishes the writer, whatever it holds.
pub proof fn cancellation_finishes(has_output: bool, has_meta: bool, writing: bool, ports: Ports)
    requires
        ports.output_finished,
    ensures
        next_event(has_output, has_meta, writing, ports) == Event::Finished,
{
}

} // verus!
