use query_core::error::INTERNAL;
use query_core::exchange::{
    ExchangeParams, ExchangePlan, ExchangeTransform, MergeExchangeParams, PipeItem,
    ShuffleExchangeParams, ShufflePipe,
};
use query_core::spill::{
    restore_columns, serialize_spill_file, spilling_group_by_payload, Action, AggregateMeta, Event,
    HashTablePayload, Phase, Ports, Pulled, SpillWrite, TransformGroupBySpillWriter,
};

fn payload() -> HashTablePayload {
    HashTablePayload {
        bucket: 7,
        columns: vec![
            (0..100u32).map(|i| (i % 251) as u8).collect(),
            (0..200u32).map(|i| (i * 7 % 256) as u8).collect(),
        ],
    }
}

#[test]
fn spill_round_trip_restores_columns_and_bucket() {
    let payload = payload();
    let (meta, write) =
        spilling_group_by_payload(&"spill/prefix".to_string(), "file-1", &payload);
    assert_eq!(write.location, "spill/prefix/file-1");
    assert_eq!(write.data.len(), 300);
    match meta {
        AggregateMeta::Spilled { bucket, location, columns_layout } => {
            assert_eq!(bucket, 7);
            assert_eq!(location, "spill/prefix/file-1");
            assert_eq!(columns_layout, vec![100, 200]);
            // What is read back is cut by the layout that travels with the meta.
            let read_back = write.data.clone();
            assert_eq!(restore_columns(&read_back, &columns_layout), Some(payload.columns));
        }
        other => panic!("not spilled: {:?}", other),
    }
}

#[test]
fn serialize_lays_columns_out_one_after_another() {
    let p = HashTablePayload { bucket: -3, columns: vec![vec![1, 2], vec![], vec![3]] };
    let (bucket, layout, data) = serialize_spill_file(&p);
    assert_eq!(bucket, -3);
    assert_eq!(layout, vec![2, 0, 1]);
    assert_eq!(data, vec![1, 2, 3]);
    let empty = HashTablePayload { bucket: 0, columns: vec![] };
    assert_eq!(serialize_spill_file(&empty), (0, vec![], vec![]));
}

#[test]
fn restore_needs_a_layout_that_adds_up() {
    assert_eq!(restore_columns(&vec![1, 2, 3], &vec![1, 2]), Some(vec![vec![1], vec![2, 3]]));
    assert_eq!(restore_columns(&vec![1, 2, 3], &vec![1, 1]), None);
    assert_eq!(restore_columns(&vec![1, 2, 3], &vec![2, 2]), None);
    assert_eq!(restore_columns(&vec![], &vec![]), Some(vec![]));
    assert_eq!(restore_columns(&vec![], &vec![0, 0]), Some(vec![vec![], vec![]]));
    assert_eq!(restore_columns(&vec![9], &vec![]), None);
}

fn open_ports() -> Ports {
    Ports {
        output_finished: false,
        output_can_push: true,
        input_has_data: false,
        input_finished: false,
    }
}

#[test]
fn writer_walks_through_its_phases() {
    let mut w = TransformGroupBySpillWriter::create("prefix".to_string());
    assert_eq!(w.name(), "TransformGroupBySpillWriter");
    assert_eq!(w.current_phase(), Phase::Idle);

    // Idle and nothing at the input: ask for data.
    assert_eq!(w.event(open_ports()), (Event::NeedData, Action::SetNeedData));

    // Data at the input: pull it.
    let with_data = Ports { input_has_data: true, ..open_ports() };
    assert_eq!(w.event(with_data), (Event::NeedConsume, Action::Pull));

    // An ordinary block is handed on.
    let plain = AggregateMeta::HashTable(payload());
    assert_eq!(
        w.pulled(Some(AggregateMeta::HashTable(payload()))),
        (Event::NeedConsume, Pulled::Forward, Some(plain))
    );
    assert_eq!(w.pulled(None), (Event::NeedConsume, Pulled::Forward, None));
    assert_eq!(w.current_phase(), Phase::Idle);

    // A block to spill is kept: Idle -> Serializing.
    assert_eq!(
        w.pulled(Some(AggregateMeta::Spilling(payload()))),
        (Event::Sync, Pulled::Keep, None)
    );
    assert_eq!(w.current_phase(), Phase::Serializing);
    // No input is pulled while the bucket waits.
    assert_eq!(w.event(with_data), (Event::Sync, Action::SetNotNeedData));

    // Serializing -> WritingAsync.
    w.process("name").unwrap();
    assert_eq!(w.current_phase(), Phase::WritingAsync);
    assert_eq!(w.event(with_data), (Event::Async, Action::SetNotNeedData));

    // The write is handed out; then the placeholder block is pushed.
    let write = w.async_process().unwrap();
    assert_eq!(write.location, "prefix/name");
    assert_eq!(write.data.len(), 300);
    assert_eq!(w.current_phase(), Phase::Idle);
    match w.event(with_data) {
        (Event::NeedConsume, Action::PushSpilled(AggregateMeta::Spilled { bucket, .. })) => {
            assert_eq!(bucket, 7)
        }
        other => panic!("unexpected: {:?}", other),
    }
    // Idle again: input is pulled.
    assert_eq!(w.event(with_data), (Event::NeedConsume, Action::Pull));
    assert_eq!(w.async_process(), None);
}

#[test]
fn writer_obeys_its_ports() {
    let mut w = TransformGroupBySpillWriter::create("p".to_string());
    // A finished output finishes the writer, whatever else holds.
    let cancelled = Ports { output_finished: true, input_has_data: true, ..open_ports() };
    assert_eq!(w.event(cancelled), (Event::Finished, Action::FinishInput));
    // A full output asks to be consumed.
    let full = Ports { output_can_push: false, input_has_data: true, ..open_ports() };
    assert_eq!(w.event(full), (Event::NeedConsume, Action::SetNotNeedData));
    // A finished input finishes the output.
    let done = Ports { input_finished: true, ..open_ports() };
    assert_eq!(w.event(done), (Event::Finished, Action::FinishOutput));
}

#[test]
fn writer_rejects_meta_that_is_no_bucket_to_spill() {
    let mut w = TransformGroupBySpillWriter {
        location_prefix: "p".to_string(),
        output_block: None,
        spilling_meta: Some(AggregateMeta::HashTable(payload())),
        spilling_future: None,
    };
    let err = w.process("n").unwrap_err();
    assert_eq!(err.code(), INTERNAL);
    assert_eq!(err.message(), "TransformGroupBySpillWriter only recv AggregateMeta");
    assert_eq!(w.spilling_meta, None);
    // Without a kept meta nothing happens.
    assert!(w.process("n").is_ok());
    assert_eq!(w.output_block, None);
    assert_eq!(w.spilling_future, None::<SpillWrite>);
}

fn shuffle(executor: &str, destinations: Vec<&str>) -> ExchangeParams {
    ExchangeParams::ShuffleExchange(ShuffleExchangeParams {
        query_id: "q".to_string(),
        executor_id: executor.to_string(),
        fragment_id: 1,
        destination_ids: destinations.into_iter().map(|d| d.to_string()).collect(),
    })
}

#[test]
fn shuffle_exchange_wires_writers_and_readers() {
    let plan = ExchangeTransform::via(&shuffle("b", vec!["a", "b", "c"]), 4, 3).unwrap();
    assert_eq!(
        plan,
        ExchangePlan::Shuffle(ShufflePipe {
            inputs: 3,
            outputs: 4 + 2,
            items: vec![
                PipeItem::Writer { destination: 0 },
                PipeItem::Resize { inputs: 1, outputs: 4 },
                PipeItem::Writer { destination: 2 },
                PipeItem::Reader { source: 0 },
                PipeItem::Reader { source: 2 },
            ],
            nodes_source: 2,
        })
    );
}

#[test]
fn local_destination_with_one_thread_is_a_pass_through() {
    let plan = ExchangeTransform::via(&shuffle("a", vec!["a"]), 1, 1).unwrap();
    assert_eq!(
        plan,
        ExchangePlan::Shuffle(ShufflePipe {
            inputs: 1,
            outputs: 1,
            items: vec![PipeItem::Dummy],
            nodes_source: 0,
        })
    );
}

#[test]
fn destinations_without_a_channel_get_no_stage() {
    let plan = ExchangeTransform::via(&shuffle("x", vec!["a", "b", "c"]), 2, 1).unwrap();
    assert_eq!(
        plan,
        ExchangePlan::Shuffle(ShufflePipe {
            inputs: 3,
            outputs: 3,
            items: vec![PipeItem::Writer { destination: 0 }, PipeItem::Reader { source: 0 }],
            nodes_source: 1,
        })
    );
}

#[test]
fn merge_exchange_needs_no_pipe() {
    let params = ExchangeParams::MergeExchange(MergeExchangeParams {
        query_id: "q".to_string(),
        fragment_id: 0,
        destination_id: "a".to_string(),
    });
    assert_eq!(ExchangeTransform::via(&params, 8, 0).unwrap(), ExchangePlan::Merge);
}

#[test]
fn too_many_outputs_are_an_error() {
    let err = ExchangeTransform::via(&shuffle("x", vec!["a"]), usize::MAX, 1).unwrap_err();
    assert_eq!(err.code(), INTERNAL);
}
