use std::sync::Arc;

use dynobj::object::{Object, ObjectKind};
use dynobj::record::{EmptyStructObject, StructObject};
use dynobj::sequence::{EmptySeqObject, SeqObject};
use dynobj::simple::{SimpleSeqObject, SimpleStructObject};
use dynobj::value::{ErrorKind, State, Value};

/// An object that overrides nothing beyond the required string forms.
struct PlainThing;

impl Object for PlainThing {
    type SeqView = EmptySeqObject;
    type StructView = EmptyStructObject;

    fn render(&self) -> String {
        String::from("plain thing")
    }

    fn render_debug(&self) -> String {
        String::from("PlainThing")
    }
}

/// A record of three named integer fields, enumerated in order.
struct Point3 {
    x: i64,
    y: i64,
    z: i64,
}

impl StructObject for Point3 {
    fn field_spec(&self, _name: vstd::seq::Seq<char>) -> Option<Value> {
        unreachable!()
    }

    fn get_field(&self, name: &str) -> Option<Value> {
        match name {
            "x" => Some(Value::Int(self.x)),
            "y" => Some(Value::Int(self.y)),
            "z" => Some(Value::Int(self.z)),
            _ => None,
        }
    }

    fn fields(&self) -> Vec<String> {
        vec![String::from("x"), String::from("y"), String::from("z")]
    }
}

#[test]
fn default_object_kind_is_plain() {
    assert!(matches!(PlainThing.kind(), ObjectKind::Plain));
}

#[test]
fn default_method_dispatch_fails_with_unknown_method() {
    let r = PlainThing.call_method(&State, "frobnicate", &[]);
    let e = r.err().expect("method dispatch must fail by default");
    assert_eq!(e.kind(), ErrorKind::UnknownMethod);
    assert_eq!(e.message(), "object has no method named frobnicate");
}

#[test]
fn default_invocation_fails_with_invalid_operation() {
    let args = [Value::Int(1), Value::Bool(true)];
    let r = PlainThing.call(&State, &args);
    let e = r.err().expect("direct invocation must fail by default");
    assert_eq!(e.kind(), ErrorKind::InvalidOperation);
    assert_eq!(e.message(), "tried to call non callable object");
}

#[test]
fn empty_record_reports_nothing() {
    assert_eq!(EmptyStructObject.field_count(), 0);
    assert_eq!(EmptyStructObject.fields(), Vec::<String>::new());
    assert_eq!(EmptyStructObject.get_field("anything"), None);
    assert_eq!(EmptyStructObject.get_field(""), None);
}

#[test]
fn default_field_count_counts_the_enumeration() {
    let p = Point3 { x: 1, y: 2, z: 3 };
    assert_eq!(p.field_count(), 3);
    assert_eq!(
        p.fields(),
        vec![String::from("x"), String::from("y"), String::from("z")]
    );
}

#[test]
fn simple_seq_object_debug_rendering() {
    let wrapped = SimpleSeqObject(vec![Value::Int(1), Value::Int(2), Value::Int(3)]);
    assert_eq!(wrapped.render_debug(), "[1, 2, 3]");
    assert_eq!(wrapped.render(), "[1, 2, 3]");
}

#[test]
fn simple_seq_object_renders_every_shape() {
    let wrapped = SimpleSeqObject(vec![
        Value::Str(String::from("a")),
        Value::Bool(true),
        Value::Undefined,
        Value::Int(-42),
    ]);
    assert_eq!(wrapped.render_debug(), "[\"a\", true, undefined, -42]");
}

#[test]
fn simple_seq_object_kind_is_sequence() {
    let wrapped = SimpleSeqObject(vec![Value::Int(9)]);
    match wrapped.kind() {
        ObjectKind::Sequence(s) => {
            assert_eq!(s.item_count(), 1);
            assert_eq!(s.get_item(0), Some(Value::Int(9)));
        }
        _ => panic!("a simple sequence object must classify as a sequence"),
    }
}

#[test]
fn simple_struct_object_debug_rendering() {
    let wrapped = SimpleStructObject(Point3 { x: 1, y: 2, z: 3 });
    assert_eq!(wrapped.render_debug(), "{\"x\": 1, \"y\": 2, \"z\": 3}");
    assert_eq!(wrapped.render(), "[\"x\": 1, \"y\": 2, \"z\": 3]");
}

#[test]
fn simple_adapters_render_empty_wrappers() {
    let no_items = SimpleSeqObject(Vec::<Value>::new());
    assert_eq!(no_items.render_debug(), "[]");
    assert_eq!(no_items.render(), "[]");
    let no_fields = SimpleStructObject(EmptyStructObject);
    assert_eq!(no_fields.render_debug(), "{}");
    assert_eq!(no_fields.render(), "[]");
}

#[test]
fn simple_struct_object_kind_is_struct() {
    let wrapped = SimpleStructObject(Point3 { x: 0, y: 0, z: 7 });
    match wrapped.kind() {
        ObjectKind::Struct(s) => {
            assert_eq!(s.field_count(), 3);
            assert_eq!(s.get_field("z"), Some(Value::Int(7)));
        }
        _ => panic!("a simple struct object must classify as a struct"),
    }
}

#[test]
fn simple_adapters_keep_default_call_behavior() {
    let wrapped = SimpleSeqObject(vec![Value::Int(1)]);
    let e = wrapped
        .call_method(&State, "push", &[])
        .err()
        .expect("no method behavior was opted into");
    assert_eq!(e.kind(), ErrorKind::UnknownMethod);
    assert_eq!(e.message(), "object has no method named push");
    let e = wrapped
        .call(&State, &[])
        .err()
        .expect("no callability was opted into");
    assert_eq!(e.kind(), ErrorKind::InvalidOperation);
}

#[test]
fn shared_handle_is_transparent_for_records() {
    let p = Point3 { x: 4, y: 5, z: 6 };
    let shared = Arc::new(Point3 { x: 4, y: 5, z: 6 });
    assert_eq!(shared.field_count(), p.field_count());
    assert_eq!(shared.fields(), p.fields());
    assert_eq!(shared.get_field("x"), p.get_field("x"));
    assert_eq!(shared.get_field("w"), p.get_field("w"));
}

#[test]
fn shared_handle_is_transparent_for_objects() {
    let shared = Arc::new(SimpleSeqObject(vec![Value::Int(8), Value::Undefined]));
    assert_eq!(shared.render_debug(), "[8, undefined]");
    assert_eq!(shared.render(), "[8, undefined]");
    assert!(matches!(shared.kind(), ObjectKind::Sequence(_)));
    let e = shared
        .call_method(&State, "pop", &[])
        .err()
        .expect("forwarding keeps the default failure");
    assert_eq!(e.kind(), ErrorKind::UnknownMethod);
    assert_eq!(e.message(), "object has no method named pop");
    let e = shared
        .call(&State, &[])
        .err()
        .expect("forwarding keeps the default failure");
    assert_eq!(e.kind(), ErrorKind::InvalidOperation);
    assert_eq!(e.message(), "tried to call non callable object");
}

#[test]
fn nested_shared_handles_stay_transparent() {
    let doubly = Arc::new(Arc::new(vec![Value::Int(3), Value::Int(1)]));
    assert_eq!(doubly.item_count(), 2);
    assert_eq!(doubly.get_item(1), Some(Value::Int(1)));
}
