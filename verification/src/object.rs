//! The base capability every dynamic engine value is wrapped in, and
//! the per-call classification that exposes its structural views.

use std::sync::Arc;
use vstd::prelude::*;
use vstd::string::StringExecFns;

use crate::record::StructObject;
use crate::sequence::SeqObject;
use crate::value::{Error, ErrorKind, State, Value};

verus! {

/// A kind defines the object's behavior.
///
/// The classification is produced fresh on each `kind` call, borrows the
/// specialized view from the object for exactly that call, and is never
/// retained beyond it.  The set of kinds is explicitly open: consumers
/// must treat it as partially matchable, so future shapes do not break
/// existing implementations, which rely on the plain default.
#[non_exhaustive]
pub enum ObjectKind<'a, S: SeqObject, R: StructObject> {
    /// A plain object: no structural behavior, but it can be
    /// stringified and potentially called or have methods.
    Plain,
    /// A sequence: the object exposes an ordered, index-addressed view.
    Sequence(&'a S),
    /// A struct (a map with string keys): the object exposes a
    /// named-field view.
    Struct(&'a R),
}

/// The message of the error raised when method dispatch does not
/// recognize a name: it embeds the name.
pub open spec fn unknown_method_message(name: Seq<char>) -> Seq<char> {
    "object has no method named "@ + name
}

/// A utility trait that represents a dynamic object.
///
/// Host applications expose custom types to the engine without a
/// serialization step by implementing this trait and moving ownership of
/// the value into the engine's shared, reference-counted value handle.
/// All methods take `&self`: implementations must be safely invocable
/// from concurrent threads, and any internal mutable state needs
/// implementer-supplied synchronization.
///
/// By default an object is plain: it can be stringified, method
/// dispatch fails with an error that names the method, and direct
/// invocation fails with an error that the object is not callable.
pub trait Object: Send + Sync {
    /// The sequence view this object can expose through its kind.
    type SeqView: SeqObject;

    /// The record view this object can expose through its kind.
    type StructView: StructObject;

    /// The engine's string form of the object.
    fn render(&self) -> String;

    /// The debug form of the object.
    fn render_debug(&self) -> String;

    /// Describes the kind of an object: plain unless overridden.
    fn kind(&self) -> (k: ObjectKind<'_, Self::SeqView, Self::StructView>)
        default_ensures
            k is Plain,
    {
        ObjectKind::Plain
    }

    /// Called when the engine tries to call a method on the object.
    ///
    /// Unless overridden, dispatch fails with an unknown-method error
    /// whose message embeds the method name, whatever the state and the
    /// arguments.
    fn call_method(&self, state: &State, name: &str, args: &[Value]) -> (r: Result<Value, Error>)
        default_ensures
            r matches Err(e) && e.kind_spec() == ErrorKind::UnknownMethod && e.message_spec()
                == unknown_method_message(name@),
    {
        let _state = state;
        let _args = args;
        let mut message = "object has no method named ".to_owned();
        message.append(name);
        Err(Error::new(ErrorKind::UnknownMethod, message))
    }

    /// Called when the object is invoked directly.
    ///
    /// Unless overridden, invocation fails with an invalid-operation
    /// error: the object has not opted into callability.
    fn call(&self, state: &State, args: &[Value]) -> (r: Result<Value, Error>)
        default_ensures
            r matches Err(e) && e.kind_spec() == ErrorKind::InvalidOperation && e.message_spec()
                == "tried to call non callable object"@,
    {
        let _state = state;
        let _args = args;
        Err(
            Error::new(
                ErrorKind::InvalidOperation,
                "tried to call non callable object".to_owned(),
            ),
        )
    }
}

/// Shared-ownership forwarding: a reference-counted handle to an object
/// is itself an object, every operation forwarded unchanged to the
/// inner implementation.  Each method's result satisfies whatever the
/// wrapped implementation's own contract promises of it.
impl<T: Object> Object for Arc<T> {
    type SeqView = T::SeqView;

    type StructView = T::StructView;

    fn render(&self) -> (r: String)
        ensures
            call_ensures(T::render, (&**self,), r),
    {
        (**self).render()
    }

    fn render_debug(&self) -> (r: String)
        ensures
            call_ensures(T::render_debug, (&**self,), r),
    {
        (**self).render_debug()
    }

    fn kind(&self) -> (k: ObjectKind<'_, T::SeqView, T::StructView>)
        ensures
            call_ensures(T::kind, (&**self,), k),
    {
        (**self).kind()
    }

    fn call_method(&self, state: &State, name: &str, args: &[Value]) -> (r: Result<Value, Error>)
        ensures
            call_ensures(T::call_method, (&**self, state, name, args), r),
    {
        (**self).call_method(state, name, args)
    }

    fn call(&self, state: &State, args: &[Value]) -> (r: Result<Value, Error>)
        ensures
            call_ensures(T::call, (&**self, state, args), r),
    {
        (**self).call(state, args)
    }
}

} // verus!
