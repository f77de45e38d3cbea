//! Simple adapters: wrap a bare sequence or record capability and
//! synthesize the rest of the object surface mechanically, for the case
//! where no custom call, method or display behavior is needed.

use vstd::prelude::*;
use vstd::string::StringExecFns;

use crate::object::{Object, ObjectKind};
use crate::record::{
    field_or_undefined, joined_fields, struct_debug_rep, struct_display_rep, StructObject,
};
use crate::render::{joined_values, seq_debug_rep};
use crate::sequence::{seq_values, EmptySeqObject, SeqObject};
use crate::value::Value;

verus! {

/// Wraps a bare sequence capability into a complete object: the kind
/// classifies it as a sequence, and both string forms render the
/// bracketed, comma-separated debug forms of the traversed values.
pub struct SimpleSeqObject<T: SeqObject>(pub T);

/// Renders a full traversal of a sequence: the debug forms of the
/// yielded values, comma-separated.
fn render_items<T: SeqObject>(s: &T) -> (r: String)
    ensures
        r@ == joined_values(seq_values(s), seq_values(s).len() as int),
{
    let mut it = crate::traverse::SeqObject(s).iter();
    let count = it.len();
    let mut out = String::new();
    let mut i: usize = 0;
    while i < count
        invariant
            it.wf(),
            it.src() == s,
            it.hi() == s.seq_len(),
            count == s.seq_len(),
            it.lo() == i,
            i <= count,
            out@ == joined_values(seq_values(s), i as int),
        decreases count - i,
    {
        if i > 0 {
            out.append(", ");
        }
        let v = match it.next() {
            Some(v) => v,
            None => Value::Undefined,
        };
        out.append(v.render_debug().as_str());
        proof {
            assert(v == seq_values(s)[i as int]);
        }
        i = i + 1;
    }
    out
}

impl<T: SeqObject> Object for SimpleSeqObject<T> {
    type SeqView = T;

    type StructView = crate::record::EmptyStructObject;

    /// Stringification: the same bracketed list as the debug form.
    fn render(&self) -> (r: String)
        ensures
            r@ == seq_debug_rep(seq_values(&self.0)),
    {
        self.render_debug()
    }

    /// Debug form: the debug forms of the traversed values,
    /// comma-separated, between square brackets.
    fn render_debug(&self) -> (r: String)
        ensures
            r@ == seq_debug_rep(seq_values(&self.0)),
    {
        let mut out = "[".to_owned();
        out.append(render_items(&self.0).as_str());
        out.append("]");
        out
    }

    /// Classifies the wrapped value as a sequence.
    fn kind(&self) -> (k: ObjectKind<'_, T, crate::record::EmptyStructObject>)
        ensures
            k matches ObjectKind::Sequence(s) && s == &self.0,
    {
        ObjectKind::Sequence(&self.0)
    }
}

/// Wraps a bare record capability into a complete object: the kind
/// classifies it as a struct, the debug form renders a map of the
/// enumerated fields, and stringification renders the same entries as a
/// bracketed list.
pub struct SimpleStructObject<T: StructObject>(pub T);

/// Renders the enumerated fields of a record: quoted name, colon and
/// debug form of the field's value for each entry, comma-separated; a
/// name whose lookup reports absence renders the undefined sentinel.
fn render_entries<T: StructObject>(t: &T) -> (r: String)
    ensures
        r@ == joined_fields(t, t.fields_spec(), t.fields_spec().len() as int),
{
    let names = t.fields();
    let count = names.len();
    let mut out = String::new();
    let mut i: usize = 0;
    while i < count
        invariant
            count == names@.len(),
            names@.len() == t.fields_spec().len(),
            forall|j: int| 0 <= j < names@.len() ==> #[trigger] names@[j]@ == t.fields_spec()[j],
            i <= count,
            out@ == joined_fields(t, t.fields_spec(), i as int),
        decreases count - i,
    {
        if i > 0 {
            out.append(", ");
        }
        out.append("\"");
        out.append(names[i].as_str());
        out.append("\"");
        out.append(": ");
        let v = match t.get_field(names[i].as_str()) {
            Some(v) => v,
            None => Value::Undefined,
        };
        out.append(v.render_debug().as_str());
        proof {
            reveal_strlit("\"");
            reveal_strlit(": ");
            let name = t.fields_spec()[i as int];
            assert(v == field_or_undefined(t, name));
            assert(out@ =~= joined_fields(t, t.fields_spec(), i as int + 1));
        }
        i = i + 1;
    }
    out
}

impl<T: StructObject> Object for SimpleStructObject<T> {
    type SeqView = EmptySeqObject;

    type StructView = T;

    /// Stringification: the rendered entries between square brackets.
    fn render(&self) -> (r: String)
        ensures
            r@ == struct_display_rep(&self.0),
    {
        let mut out = "[".to_owned();
        out.append(render_entries(&self.0).as_str());
        out.append("]");
        out
    }

    /// Debug form: a map of the enumerated fields, keys in enumeration
    /// order.
    fn render_debug(&self) -> (r: String)
        ensures
            r@ == struct_debug_rep(&self.0),
    {
        let mut out = "{".to_owned();
        out.append(render_entries(&self.0).as_str());
        out.append("}");
        out
    }

    /// Classifies the wrapped value as a struct.
    fn kind(&self) -> (k: ObjectKind<'_, EmptySeqObject, T>)
        ensures
            k matches ObjectKind::Struct(s) && s == &self.0,
    {
        ObjectKind::Struct(&self.0)
    }
}

} // verus!
