//! What makes a typed model valid: every type has the rule of its category,
//! and every derived name is the one that its declaration gives.

use vstd::prelude::*;
use crate::decl::Receiver;
use crate::model::{
    BridgeModuleView, FieldView, InvokableDeclView, ObjectDeclView, PropertyDeclView,
    SignalVariantView, SignalsDeclView, TypeRefView,
};
use crate::names::{emitter_name, getter_name, notify_name, setter_name};

verus! {

pub open spec fn fields_wf(fields: Seq<FieldView>) -> bool {
    forall|i: int| 0 <= i < fields.len() ==> (#[trigger] fields[i]).ty.wf()
}

pub open spec fn return_wf(ret: Option<TypeRefView>) -> bool {
    match ret {
        Some(t) => t.wf(),
        None => true,
    }
}

/// A property has the three accessor names that its own name gives.
pub open spec fn property_wf(p: PropertyDeclView) -> bool {
    &&& p.ty.wf()
    &&& p.getter == getter_name(p.name)
    &&& p.setter == setter_name(p.name)
    &&& p.notify == notify_name(p.name)
}

/// An invokable may change the object only through an exclusive receiver,
/// and is `const` only with a shared one; so it is never both.
pub open spec fn invokable_wf(m: InvokableDeclView) -> bool {
    &&& fields_wf(m.params)
    &&& return_wf(m.ret)
    &&& m.mutates == (m.receiver == Receiver::Exclusive)
    &&& m.is_const == (m.receiver == Receiver::Shared)
}

/// A signal is emitted by the emitter that its C++ name gives.
pub open spec fn variant_wf(v: SignalVariantView) -> bool {
    &&& fields_wf(v.fields)
    &&& v.emitter == emitter_name(v.native_name)
}

pub open spec fn object_wf(o: ObjectDeclView) -> bool {
    &&& forall|i: int| 0 <= i < o.properties.len() ==> property_wf(#[trigger] o.properties[i])
    &&& forall|i: int| 0 <= i < o.invokables.len() ==> invokable_wf(#[trigger] o.invokables[i])
}

pub open spec fn signals_wf(s: SignalsDeclView) -> bool {
    forall|i: int| 0 <= i < s.variants.len() ==> variant_wf(#[trigger] s.variants[i])
}

/// A valid model: all of its objects and all of its signals are valid.
pub open spec fn model_wf(m: BridgeModuleView) -> bool {
    &&& forall|i: int| 0 <= i < m.objects.len() ==> object_wf(#[trigger] m.objects[i])
    &&& forall|i: int| 0 <= i < m.signals.len() ==> signals_wf(#[trigger] m.signals[i])
}

} // verus!
