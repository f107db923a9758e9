//! The C++ names that a declaration gives rise to, and the registry in which
//! the members of one object claim them.

use vstd::prelude::*;
use vstd::string::*;
use crate::decl::{text_opt, RawVariantView};
use crate::text::{camel, pascal, same_text, to_camel, to_pascal};

verus! {

/// `number` is read by `getNumber`.
pub open spec fn getter_name(property: Seq<char>) -> Seq<char> {
    "get"@ + pascal(property)
}

/// `number` is written by `setNumber`.
pub open spec fn setter_name(property: Seq<char>) -> Seq<char> {
    "set"@ + pascal(property)
}

/// A change of `number` is announced by `numberChanged`.
pub open spec fn notify_name(property: Seq<char>) -> Seq<char> {
    property + "Changed"@
}

/// The name of a signal in C++: the rename where the variant has one, else the
/// variant's name with its first letter lowered.
pub open spec fn signal_name(name: Seq<char>, rename: Option<Seq<char>>) -> Seq<char> {
    match rename {
        Some(r) => r,
        None => camel(name),
    }
}

pub open spec fn native_signal_name(v: RawVariantView) -> Seq<char> {
    signal_name(v.name, v.cxx_name)
}

/// The signal `dataChanged` is emitted by `emitDataChanged`.
pub open spec fn emitter_name(signal: Seq<char>) -> Seq<char> {
    "emit"@ + pascal(signal)
}

pub fn getter_for(property: &str) -> (out: String)
    ensures
        out@ == getter_name(property@),
{
    let mut out = String::from_str("get");
    let tail = to_pascal(property);
    out.append(tail.as_str());
    out
}

pub fn setter_for(property: &str) -> (out: String)
    ensures
        out@ == setter_name(property@),
{
    let mut out = String::from_str("set");
    let tail = to_pascal(property);
    out.append(tail.as_str());
    out
}

pub fn notify_for(property: &str) -> (out: String)
    ensures
        out@ == notify_name(property@),
{
    let mut out = String::from_str(property);
    out.append("Changed");
    out
}

pub fn signal_name_for(name: &str, rename: &Option<String>) -> (out: String)
    ensures
        out@ == signal_name(name@, text_opt(*rename)),
{
    match rename {
        Some(r) => r.clone(),
        None => to_camel(name),
    }
}

pub fn emitter_for(signal: &str) -> (out: String)
    ensures
        out@ == emitter_name(signal@),
{
    let mut out = String::from_str("emit");
    let tail = to_pascal(signal);
    out.append(tail.as_str());
    out
}

/// The names that the members of one object have claimed so far. It lives for
/// the checking of one object and is dropped after it.
pub struct Registry {
    names: Vec<String>,
}

impl View for Registry {
    type V = Seq<Seq<char>>;

    closed spec fn view(&self) -> Seq<Seq<char>> {
        self.names@.map_values(|s: String| s@)
    }
}

impl Registry {
    pub fn new() -> (reg: Registry)
        ensures
            reg@ == Seq::<Seq<char>>::empty(),
    {
        let reg = Registry { names: Vec::new() };
        assert(reg@ =~= Seq::<Seq<char>>::empty());
        reg
    }

    /// Whether the name has been claimed.
    pub fn claims(&self, name: &str) -> (taken: bool)
        ensures
            taken == self@.contains(name@),
    {
        let n: usize = self.names.len();
        let mut i: usize = 0;
        while i < n
            invariant
                n == self.names@.len(),
                i <= n,
                forall|k: int| 0 <= k < i ==> (#[trigger] self@[k]) != name@,
            decreases n - i,
        {
            if same_text(self.names[i].as_str(), name) {
                assert(self@[i as int] == name@);
                return true;
            }
            i = i + 1;
        }
        false
    }

    /// Claims the name.
    pub fn claim(&mut self, name: String)
        ensures
            final(self)@ == old(self)@.push(name@),
    {
        self.names.push(name);
        assert(self@ =~= old(self)@.push(name@));
    }
}

} // verus!
