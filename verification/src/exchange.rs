//! The wiring of an exchange: which stages a fragment puts into its
//! pipeline to send rows to, and take rows from, the other workers.
//!
//! The plan is decided here; the caller builds the stages and adds them to
//! its pipeline. A shuffle exchange has one outgoing stage per destination
//! and one incoming stage per remote source. A merge exchange gathers at a
//! single destination and needs no fan-out.

use crate::error::{ErrorCode, INTERNAL};
use vstd::prelude::*;
use vstd::string::*;

verus! {

/// The parameters of an exchange that gathers at one destination.
#[derive(Debug, PartialEq, Eq)]
pub struct MergeExchangeParams {
    pub query_id: String,
    pub fragment_id: usize,
    pub destination_id: String,
}

/// The parameters of an exchange that spreads rows over destinations.
#[derive(Debug, PartialEq, Eq)]
pub struct ShuffleExchangeParams {
    pub query_id: String,
    /// The worker that runs this fragment.
    pub executor_id: String,
    pub fragment_id: usize,
    pub destination_ids: Vec<String>,
}

/// The parameters of an exchange.
#[derive(Debug, PartialEq, Eq)]
pub enum ExchangeParams {
    MergeExchange(MergeExchangeParams),
    ShuffleExchange(ShuffleExchangeParams),
}

/// One stage of the pipe of a shuffle exchange.
#[derive(Clone, Copy, Debug, PartialEq, Eq, Structural)]
pub enum PipeItem {
    /// Hands rows on unchanged.
    Dummy,
    /// Spreads the rows of `inputs` ports over `outputs` ports.
    Resize { inputs: usize, outputs: usize },
    /// Sends rows to the destination at position `destination`.
    Writer { destination: usize },
    /// Takes rows from the source at position `source`.
    Reader { source: usize },
}

/// The pipe of a shuffle exchange.
#[derive(Debug, PartialEq, Eq)]
pub struct ShufflePipe {
    pub inputs: usize,
    pub outputs: usize,
    pub items: Vec<PipeItem>,
    /// The number of remote sources that feed into this fragment.
    pub nodes_source: usize,
}

/// What the caller has to wire.
#[derive(Debug, PartialEq, Eq)]
pub enum ExchangePlan {
    /// Gather at the destination: an exchange source, nothing else.
    Merge,
    /// Add the pipe, then the deserializer for `nodes_source` sources.
    Shuffle(ShufflePipe),
}

/// The outgoing stage for the destination at position `i`: a pass-through
/// for the local worker if it has one thread, a fan-out over its threads if
/// it has more, and a writer for any other worker.
pub open spec fn outgoing_item(
    executor: Seq<char>,
    destinations: Seq<Seq<char>>,
    max_threads: usize,
    i: int,
) -> PipeItem {
    if destinations[i] == executor {
        if max_threads == 1 {
            PipeItem::Dummy
        } else {
            PipeItem::Resize { inputs: 1, outputs: max_threads }
        }
    } else {
        PipeItem::Writer { destination: i as usize }
    }
}

/// The incoming stages for the first `n` destinations: a reader for each
/// that is not the local worker, in order.
pub open spec fn incoming_items(executor: Seq<char>, destinations: Seq<Seq<char>>, n: nat) -> Seq<
    PipeItem,
>
    decreases n,
{
    if n == 0 {
        Seq::empty()
    } else {
        let rest = incoming_items(executor, destinations, (n - 1) as nat);
        if destinations[n - 1] == executor {
            rest
        } else {
            rest.push(PipeItem::Reader { source: (n - 1) as usize })
        }
    }
}

/// The stages of the pipe over the first `n` destinations: the outgoing
/// stages, then the incoming ones.
pub open spec fn shuffle_items(
    executor: Seq<char>,
    destinations: Seq<Seq<char>>,
    max_threads: usize,
    n: nat,
) -> Seq<PipeItem> {
    Seq::new(n, |i: int| outgoing_item(executor, destinations, max_threads, i)) + incoming_items(
        executor,
        destinations,
        n,
    )
}

/// The ids of the destinations.
pub open spec fn destination_texts(ids: Seq<String>) -> Seq<Seq<char>> {
    Seq::new(ids.len(), |i: int| ids[i]@)
}

/// The smaller of two numbers.
pub open spec fn smaller(a: nat, b: nat) -> nat {
    if a <= b {
        a
    } else {
        b
    }
}

/// There is one incoming stage for each remote destination, and never
/// more incoming stages than destinations.
pub proof fn incoming_items_count(executor: Seq<char>, destinations: Seq<Seq<char>>, n: nat)
    requires
        n <= destinations.len(),
        destinations.len() <= usize::MAX,
    ensures
        incoming_items(executor, destinations, n).len() <= n,
        forall|k: int|
            0 <= k < incoming_items(executor, destinations, n).len() ==> {
                let item = #[trigger] incoming_items(executor, destinations, n)[k];
                item is Reader && item->source < n && destinations[item->source as int] != executor
            },
    decreases n,
{
    if n > 0 {
        incoming_items_count(executor, destinations, (n - 1) as nat);
        let rest = incoming_items(executor, destinations, (n - 1) as nat);
        let all = incoming_items(executor, destinations, n);
        assert forall|k: int| 0 <= k < all.len() implies {
            let item = #[trigger] all[k];
            item is Reader && item->source < n && destinations[item->source as int] != executor
        } by {
            if k < rest.len() {
                assert(all[k] == rest[k]);
            }
        }
    }
}

/// The entry point of the exchange wiring.
pub struct ExchangeTransform;

impl ExchangeTransform {
    /// Plans the stages of the exchange `params` for a worker that runs
    /// `max_threads` threads and holds `exchanges` open channels.
    ///
    /// A merge exchange needs no pipe. A shuffle exchange gets a pipe with
    /// one input per destination. Channels and destinations pair up in
    /// order, so only as many destinations get a stage as there are
    /// channels. The pipe has as many outputs as the worker has threads and
    /// remote sources together; the plan fails with an internal error if
    /// that number does not fit the machine.
    pub fn via(params: &ExchangeParams, max_threads: usize, exchanges: usize) -> (r: Result<
        ExchangePlan,
        ErrorCode,
    >)
        ensures
            match params {
                ExchangeParams::MergeExchange(_) => r == Ok::<ExchangePlan, ErrorCode>(
                    ExchangePlan::Merge,
                ),
                ExchangeParams::ShuffleExchange(p) => {
                    let n = smaller(p.destination_ids.len() as nat, exchanges as nat);
                    let incoming = incoming_items(
                        p.executor_id@,
                        destination_texts(p.destination_ids@),
                        n,
                    );
                    if max_threads + incoming.len() <= usize::MAX {
                        &&& r is Ok
                        &&& r->Ok_0 is Shuffle
                        &&& r->Ok_0->Shuffle_0.inputs == p.destination_ids.len()
                        &&& r->Ok_0->Shuffle_0.outputs == max_threads + incoming.len()
                        &&& r->Ok_0->Shuffle_0.nodes_source == incoming.len()
                        &&& r->Ok_0->Shuffle_0.items@ == shuffle_items(
                            p.executor_id@,
                            destination_texts(p.destination_ids@),
                            max_threads,
                            n,
                        )
                    } else {
                        r is Err && r->Err_0.code == INTERNAL && r->Err_0.message@
                            == "Too many outputs for the exchange pipe"@
                    }
                },
            },
    {
        match params {
            ExchangeParams::MergeExchange(_) => Ok(ExchangePlan::Merge),
            ExchangeParams::ShuffleExchange(p) => {
                let len = p.destination_ids.len();
                let n = if len <= exchanges {
                    len
                } else {
                    exchanges
                };
                let ghost executor = p.executor_id@;
                let ghost destinations = destination_texts(p.destination_ids@);
                let mut items: Vec<PipeItem> = Vec::new();
                let mut i: usize = 0;
                while i < n
                    invariant
                        i <= n,
                        n <= p.destination_ids.len(),
                        executor == p.executor_id@,
                        destinations == destination_texts(p.destination_ids@),
                        items@ == Seq::new(
                            i as nat,
                            |k: int| outgoing_item(executor, destinations, max_threads, k),
                        ),
                    decreases n - i,
                {
                    let local = p.destination_ids[i] == p.executor_id;
                    let item = if local {
                        if max_threads == 1 {
                            PipeItem::Dummy
                        } else {
                            PipeItem::Resize { inputs: 1, outputs: max_threads }
                        }
                    } else {
                        PipeItem::Writer { destination: i }
                    };
                    items.push(item);
                    assert(items@ =~= Seq::new(
                        (i + 1) as nat,
                        |k: int| outgoing_item(executor, destinations, max_threads, k),
                    ));
                    i = i + 1;
                }
                let ghost outgoing = items@;
                let mut nodes_source: usize = 0;
                let mut j: usize = 0;
                while j < n
                    invariant
                        j <= n,
                        n <= p.destination_ids.len(),
                        executor == p.executor_id@,
                        destinations == destination_texts(p.destination_ids@),
                        nodes_source == incoming_items(executor, destinations, j as nat).len(),
                        nodes_source <= j,
                        items@ == outgoing + incoming_items(executor, destinations, j as nat),
                    decreases n - j,
                {
                    let local = p.destination_ids[j] == p.executor_id;
                    if !local {
                        nodes_source = nodes_source + 1;
                        items.push(PipeItem::Reader { source: j });
                    }
                    assert(items@ =~= outgoing + incoming_items(
                        executor,
                        destinations,
                        (j + 1) as nat,
                    ));
                    j = j + 1;
                }
                match max_threads.checked_add(nodes_source) {
                    Some(outputs) => Ok(
                        ExchangePlan::Shuffle(
                            ShufflePipe { inputs: len, outputs, items, nodes_source },
                        ),
                    ),
                    None => Err(ErrorCode::internal("Too many outputs for the exchange pipe")),
                }
            },
        }
    }
}

} // verus!
