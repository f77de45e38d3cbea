use dynobj::sequence::{EmptySeqObject, SeqObject};
use dynobj::traverse::{collect_backward, collect_forward};
use dynobj::value::Value;

/// A sparse sequence: reports three items but holds nothing at index 1.
struct Gappy;

impl SeqObject for Gappy {
    fn seq_len(&self) -> vstd::prelude::nat {
        unreachable!()
    }

    fn seq_item(&self, _i: vstd::prelude::int) -> Option<Value> {
        unreachable!()
    }

    fn get_item(&self, idx: usize) -> Option<Value> {
        match idx {
            0 => Some(Value::Int(10)),
            2 => Some(Value::Int(30)),
            _ => None,
        }
    }

    fn item_count(&self) -> usize {
        3
    }
}

#[test]
fn forward_traversal_yields_exact_count() {
    let seq: Vec<Value> = vec![Value::Int(1), Value::Int(2), Value::Int(3)];
    let vals = collect_forward(&seq);
    assert_eq!(vals.len(), 3);
    assert_eq!(vals[0], Value::Int(1));
    assert_eq!(vals[1], Value::Int(2));
    assert_eq!(vals[2], Value::Int(3));
}

#[test]
fn gaps_become_undefined_not_truncation() {
    let vals = collect_forward(&Gappy);
    assert_eq!(vals.len(), 3);
    assert_eq!(vals[0], Value::Int(10));
    assert_eq!(vals[1], Value::Undefined);
    assert_eq!(vals[2], Value::Int(30));
}

#[test]
fn backward_traversal_reverses_forward() {
    let seq: Vec<Value> = vec![
        Value::Int(4),
        Value::Str(String::from("mid")),
        Value::Bool(false),
    ];
    let forward = collect_forward(&seq);
    let mut backward = collect_backward(&seq);
    backward.reverse();
    assert_eq!(forward, backward);
}

#[test]
fn backward_traversal_of_sparse_sequence() {
    let vals = collect_backward(&Gappy);
    assert_eq!(vals.len(), 3);
    assert_eq!(vals[0], Value::Int(30));
    assert_eq!(vals[1], Value::Undefined);
    assert_eq!(vals[2], Value::Int(10));
}

#[test]
fn iterator_moves_both_cursors_independently() {
    let seq: Vec<Value> = vec![Value::Int(1), Value::Int(2), Value::Int(3), Value::Int(4)];
    let mut it = dynobj::traverse::SeqObject(&seq).iter();
    assert_eq!(it.len(), 4);
    assert_eq!(it.size_hint(), (4, Some(4)));
    assert_eq!(it.next(), Some(Value::Int(1)));
    assert_eq!(it.next_back(), Some(Value::Int(4)));
    assert_eq!(it.len(), 2);
    assert_eq!(it.next(), Some(Value::Int(2)));
    assert_eq!(it.next(), Some(Value::Int(3)));
    assert_eq!(it.next(), None);
    assert_eq!(it.next_back(), None);
    assert_eq!(it.size_hint(), (0, Some(0)));
}

#[test]
fn slice_sequence_forwards_index_and_length() {
    let items = [Value::Int(7), Value::Undefined, Value::Bool(true)];
    let slice: &[Value] = &items;
    assert_eq!(slice.item_count(), 3);
    assert_eq!(slice.get_item(0), Some(Value::Int(7)));
    assert_eq!(slice.get_item(2), Some(Value::Bool(true)));
    assert_eq!(slice.get_item(3), None);
}

#[test]
fn empty_sequence_has_no_items() {
    assert_eq!(EmptySeqObject.item_count(), 0);
    assert_eq!(EmptySeqObject.get_item(0), None);
    assert_eq!(collect_forward(&EmptySeqObject), Vec::new());
}

#[test]
fn shared_handle_is_transparent_for_sequences() {
    let seq: Vec<Value> = vec![Value::Int(5), Value::Str(String::from("s"))];
    let shared = std::sync::Arc::new(vec![Value::Int(5), Value::Str(String::from("s"))]);
    assert_eq!(shared.item_count(), seq.item_count());
    assert_eq!(shared.get_item(0), seq.get_item(0));
    assert_eq!(shared.get_item(1), seq.get_item(1));
    assert_eq!(shared.get_item(2), seq.get_item(2));
    assert_eq!(collect_forward(&shared), collect_forward(&seq));
    assert_eq!(collect_backward(&shared), collect_backward(&seq));
}
