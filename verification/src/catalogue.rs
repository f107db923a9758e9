//! The types that are known without being declared: the primitives of the
//! language, and the value types of Qt that a catalogue lists.

use vstd::prelude::*;
use vstd::string::*;
use crate::model::Marshal;
use crate::text::same_text;

verus! {

/// One Qt type that the catalogue knows.
#[derive(Clone, Debug, PartialEq, Eq)]
pub struct Entry {
    /// The name of the type in Rust.
    pub name: String,
    /// The name of the type in C++.
    pub native: String,
    /// How a value of the type crosses the boundary where it is named plainly.
    pub rule: Marshal,
}

pub struct EntryView {
    pub name: Seq<char>,
    pub native: Seq<char>,
    pub rule: Marshal,
}

impl View for Entry {
    type V = EntryView;

    open spec fn view(&self) -> EntryView {
        EntryView { name: self.name@, native: self.native@, rule: self.rule }
    }
}

/// The known Qt types. Where a name is listed twice, the first entry counts.
#[derive(Clone, Debug, PartialEq, Eq)]
pub struct Catalogue {
    pub entries: Vec<Entry>,
}

impl View for Catalogue {
    type V = Seq<EntryView>;

    open spec fn view(&self) -> Seq<EntryView> {
        self.entries@.map_values(|e: Entry| e@)
    }
}

/// The index of the first entry at or after `from` with the given name.
pub open spec fn position(entries: Seq<EntryView>, name: Seq<char>, from: int) -> Option<int>
    decreases entries.len() - from,
{
    if from < 0 || from >= entries.len() {
        None
    } else if entries[from].name == name {
        Some(from)
    } else {
        position(entries, name, from + 1)
    }
}

/// The entry for a name, if the catalogue has one.
pub open spec fn lookup(entries: Seq<EntryView>, name: Seq<char>) -> Option<EntryView> {
    match position(entries, name, 0) {
        Some(i) => Some(entries[i]),
        None => None,
    }
}

/// The C++ name of a primitive type, if the name is one.
pub open spec fn primitive_native(name: Seq<char>) -> Option<Seq<char>> {
    if name == "bool"@ {
        Some("bool"@)
    } else if name == "i8"@ {
        Some("qint8"@)
    } else if name == "i16"@ {
        Some("qint16"@)
    } else if name == "i32"@ {
        Some("qint32"@)
    } else if name == "i64"@ {
        Some("qint64"@)
    } else if name == "u8"@ {
        Some("quint8"@)
    } else if name == "u16"@ {
        Some("quint16"@)
    } else if name == "u32"@ {
        Some("quint32"@)
    } else if name == "u64"@ {
        Some("quint64"@)
    } else if name == "f32"@ {
        Some("float"@)
    } else if name == "f64"@ {
        Some("double"@)
    } else {
        None
    }
}

impl Catalogue {
    /// A catalogue with no entries.
    pub fn new() -> (cat: Catalogue)
        ensures
            cat@ == Seq::<EntryView>::empty(),
    {
        let cat = Catalogue { entries: Vec::new() };
        assert(cat@ =~= Seq::<EntryView>::empty());
        cat
    }

    /// Adds an entry behind those that are there.
    pub fn add(&mut self, name: &str, native: &str, rule: Marshal)
        ensures
            final(self)@ == old(self)@.push(EntryView { name: name@, native: native@, rule }),
    {
        let entry = Entry { name: String::from_str(name), native: String::from_str(native), rule };
        self.entries.push(entry);
        assert(self@ =~= old(self)@.push(EntryView { name: name@, native: native@, rule }));
    }

    /// The first entry with the given name.
    pub fn find(&self, name: &str) -> (found: Option<&Entry>)
        ensures
            match found {
                Some(e) => lookup(self@, name@) == Some(e@),
                None => lookup(self@, name@).is_none(),
            },
    {
        let n: usize = self.entries.len();
        let mut i: usize = 0;
        while i < n
            invariant
                n == self.entries@.len(),
                i <= n,
                position(self@, name@, 0) == position(self@, name@, i as int),
            decreases n - i,
        {
            if same_text(self.entries[i].name.as_str(), name) {
                return Some(&self.entries[i]);
            }
            i = i + 1;
        }
        None
    }
}

/// The C++ name of a primitive type.
pub fn primitive(name: &str) -> (native: Option<String>)
    ensures
        match native {
            Some(t) => primitive_native(name@) == Some(t@),
            None => primitive_native(name@).is_none(),
        },
{
    if same_text(name, "bool") {
        Some(String::from_str("bool"))
    } else if same_text(name, "i8") {
        Some(String::from_str("qint8"))
    } else if same_text(name, "i16") {
        Some(String::from_str("qint16"))
    } else if same_text(name, "i32") {
        Some(String::from_str("qint32"))
    } else if same_text(name, "i64") {
        Some(String::from_str("qint64"))
    } else if same_text(name, "u8") {
        Some(String::from_str("quint8"))
    } else if same_text(name, "u16") {
        Some(String::from_str("quint16"))
    } else if same_text(name, "u32") {
        Some(String::from_str("quint32"))
    } else if same_text(name, "u64") {
        Some(String::from_str("quint64"))
    } else if same_text(name, "f32") {
        Some(String::from_str("float"))
    } else if same_text(name, "f64") {
        Some(String::from_str("double"))
    } else {
        None
    }
}

} // verus!
