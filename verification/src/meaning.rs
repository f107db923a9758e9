//! What the statements of a generated method do, told over a small state: the
//! fields that hold the properties, and the record of what left the method.

use vstd::prelude::*;
use crate::ir::{ArgView, StmtView};

verus! {

/// Something that a method did and that is seen outside it.
pub enum Event {
    /// A signal of the class was emitted.
    Emitted { signal: Seq<char>, args: Seq<ArgView> },
    /// A method of the base class was called.
    Called { method: Seq<char>, args: Seq<ArgView> },
    /// The Rust side was called through the glue.
    Forwarded { function: Seq<char>, args: Seq<ArgView> },
}

/// The state of an object while a method runs. `V` is whatever the property
/// fields hold.
pub struct State<V> {
    pub fields: Map<Seq<char>, V>,
    pub events: Seq<Event>,
}

/// The state after one statement, in a method that was called with `value`.
pub open spec fn step<V>(s: State<V>, stmt: StmtView, value: V) -> State<V> {
    match stmt {
        StmtView::Load { field } => s,
        StmtView::Store { field, value: _ } => State {
            fields: s.fields.insert(field, value),
            events: s.events,
        },
        StmtView::Emit { signal, args } => State {
            fields: s.fields,
            events: s.events.push(Event::Emitted { signal, args }),
        },
        StmtView::CallBase { method, args } => State {
            fields: s.fields,
            events: s.events.push(Event::Called { method, args }),
        },
        StmtView::Forward { function, args, yields: _ } => State {
            fields: s.fields,
            events: s.events.push(Event::Forwarded { function, args }),
        },
    }
}

/// The state after the first `n` statements of a body.
pub open spec fn run<V>(s: State<V>, body: Seq<StmtView>, n: int, value: V) -> State<V>
    decreases n,
{
    if n <= 0 {
        s
    } else {
        step(run(s, body, n - 1, value), body[n - 1], value)
    }
}

/// The state after the whole body.
pub open spec fn run_all<V>(s: State<V>, body: Seq<StmtView>, value: V) -> State<V> {
    run(s, body, body.len() as int, value)
}

} // verus!
