//! A small object with signals, as the Rust side of a bridge sees it: the
//! object records what it emits, and whoever drives it hands the signals on.

use vstd::prelude::*;

verus! {

/// A point with integer coordinates, passed by value.
#[derive(Clone, Copy, Debug, PartialEq, Eq, Structural)]
pub struct QPoint {
    pub x: i32,
    pub y: i32,
}

impl QPoint {
    pub fn new(x: i32, y: i32) -> (p: QPoint)
        ensures
            p == (QPoint { x, y }),
    {
        QPoint { x, y }
    }
}

/// A value that only C++ can look into. It is handed over, never copied.
#[derive(Debug, PartialEq, Eq, Structural)]
pub struct Opaque {}

impl Opaque {
    pub fn new() -> (o: Opaque)
        ensures
            o == (Opaque {}),
    {
        Opaque {}
    }
}

/// The signals of `MyObject`.
#[derive(Debug, PartialEq, Eq, Structural)]
pub enum MySignals {
    Ready,
    DataChanged { first: i32, second: Opaque, third: QPoint, fourth: QPoint },
    /// Declared by the base class under the name `newData`.
    BaseClassNewData { first: i32, second: Opaque, third: QPoint, fourth: QPoint },
}

/// An object that emits `MySignals`.
#[derive(Debug)]
pub struct MyObject {
    pub emitted: Vec<MySignals>,
}

/// The signal that `invokable` emits.
pub open spec fn data_changed_once() -> MySignals {
    MySignals::DataChanged {
        first: 1,
        second: Opaque {},
        third: QPoint { x: 1, y: 2 },
        fourth: QPoint { x: 1, y: 2 },
    }
}

impl Default for MyObject {
    fn default() -> (o: MyObject)
        ensures
            o.emitted@ == Seq::<MySignals>::empty(),
    {
        MyObject { emitted: Vec::new() }
    }
}

impl MyObject {
    /// Emits a signal: it is put behind those emitted before.
    pub fn emit(&mut self, signal: MySignals)
        ensures
            final(self).emitted@ == old(self).emitted@.push(signal),
    {
        self.emitted.push(signal);
    }

    /// Emits `DataChanged` once, with 1 and the point (1, 2) twice.
    pub fn invokable(&mut self)
        ensures
            final(self).emitted@ == old(self).emitted@.push(data_changed_once()),
    {
        let p = QPoint::new(1, 2);
        self.emit(
            MySignals::DataChanged {
                first: 1,
                second: Opaque::new(),
                third: QPoint::new(1, 2),
                fourth: p,
            },
        );
    }
}

} // verus!
