//! Diagnostics: what was wrong, and where in the source it was declared.

use vstd::prelude::*;
use vstd::string::*;

verus! {

/// A place in the source of a module.
#[derive(Clone, Copy, Debug, PartialEq, Eq, Structural)]
pub struct Pos {
    pub line: u32,
    pub column: u32,
}

/// The three families of errors.
#[derive(Clone, Copy, Debug, PartialEq, Eq, Structural)]
pub enum Family {
    /// A declaration is malformed or lacks a required part.
    Structure,
    /// Declarations that are each well formed contradict one another.
    Semantic,
    /// A type has no representation on the other side.
    Type,
}

#[derive(Clone, Copy, Debug, PartialEq, Eq, Structural)]
pub enum DiagKind {
    /// A name is not an identifier.
    MalformedName,
    /// A property is declared without a type.
    PropertyWithoutType,
    /// An invokable takes `self` in none of the three accepted forms.
    UnresolvedReceiver,
    /// Two fields of one signal variant share a name.
    DuplicateField,
    /// An object has the name of an earlier object of the module.
    DuplicateObject,
    /// A set of signals names an object that the module does not declare.
    UnknownObject,
    /// A set of signals names an object that an earlier set already serves.
    DuplicateSignals,
    /// A signal is inherited, but the base class that its object names does
    /// not resolve.
    InheritWithoutBase,
    /// Two signals of one object carry the same explicit rename.
    DuplicateRename,
    /// A signal claims a C++ name that an earlier member of its object claims.
    SignalNameCollision,
    /// A property claims a C++ name that an earlier member of its object claims.
    PropertyNameCollision,
    /// The type is neither in the catalogue nor a primitive, and has no override.
    UnsupportedType,
    /// A reference to a type that can only be handed over.
    BorrowOfOwned,
    /// An owning pointer to a type that can only be borrowed.
    OwnedOfBorrowed,
}

#[derive(Clone, Copy, Debug, PartialEq, Eq, Structural)]
pub struct Diagnostic {
    pub kind: DiagKind,
    pub pos: Pos,
}

pub open spec fn family_of(kind: DiagKind) -> Family {
    match kind {
        DiagKind::MalformedName => Family::Structure,
        DiagKind::PropertyWithoutType => Family::Structure,
        DiagKind::UnresolvedReceiver => Family::Structure,
        DiagKind::DuplicateField => Family::Structure,
        DiagKind::DuplicateObject => Family::Semantic,
        DiagKind::UnknownObject => Family::Semantic,
        DiagKind::DuplicateSignals => Family::Semantic,
        DiagKind::InheritWithoutBase => Family::Semantic,
        DiagKind::DuplicateRename => Family::Semantic,
        DiagKind::SignalNameCollision => Family::Semantic,
        DiagKind::PropertyNameCollision => Family::Semantic,
        DiagKind::UnsupportedType => Family::Type,
        DiagKind::BorrowOfOwned => Family::Type,
        DiagKind::OwnedOfBorrowed => Family::Type,
    }
}

impl Diagnostic {
    pub fn new(kind: DiagKind, pos: Pos) -> (d: Diagnostic)
        ensures
            d == (Diagnostic { kind, pos }),
    {
        Diagnostic { kind, pos }
    }

    /// The family that the diagnostic belongs to.
    pub fn family(&self) -> (f: Family)
        ensures
            f == family_of(self.kind),
    {
        match self.kind {
            DiagKind::MalformedName => Family::Structure,
            DiagKind::PropertyWithoutType => Family::Structure,
            DiagKind::UnresolvedReceiver => Family::Structure,
            DiagKind::DuplicateField => Family::Structure,
            DiagKind::DuplicateObject => Family::Semantic,
            DiagKind::UnknownObject => Family::Semantic,
            DiagKind::DuplicateSignals => Family::Semantic,
            DiagKind::InheritWithoutBase => Family::Semantic,
            DiagKind::DuplicateRename => Family::Semantic,
            DiagKind::SignalNameCollision => Family::Semantic,
            DiagKind::PropertyNameCollision => Family::Semantic,
            DiagKind::UnsupportedType => Family::Type,
            DiagKind::BorrowOfOwned => Family::Type,
            DiagKind::OwnedOfBorrowed => Family::Type,
        }
    }
}

pub open spec fn diag(kind: DiagKind, pos: Pos) -> Diagnostic {
    Diagnostic { kind, pos }
}

/// Nothing, or the one diagnostic, as the condition says.
pub open spec fn only_if(fault: bool, kind: DiagKind, pos: Pos) -> Seq<Diagnostic> {
    if fault {
        seq![diag(kind, pos)]
    } else {
        Seq::empty()
    }
}

/// Appends the diagnostic where the condition holds.
pub fn report(out: &mut Vec<Diagnostic>, fault: bool, kind: DiagKind, pos: Pos)
    ensures
        final(out)@ == old(out)@ + only_if(fault, kind, pos),
{
    if fault {
        out.push(Diagnostic { kind, pos });
        assert(out@ =~= old(out)@ + only_if(fault, kind, pos));
    } else {
        assert(out@ =~= old(out)@ + only_if(fault, kind, pos));
    }
}

/// What a diagnostic of the kind says.
pub open spec fn description(kind: DiagKind) -> Seq<char> {
    match kind {
        DiagKind::MalformedName => "name is not an identifier"@,
        DiagKind::PropertyWithoutType => "property has no type"@,
        DiagKind::UnresolvedReceiver => "invokable must take self, &self or Pin<&mut Self>"@,
        DiagKind::DuplicateField => "field name is used twice"@,
        DiagKind::DuplicateObject => "object is declared twice"@,
        DiagKind::UnknownObject => "signals belong to an object that is not declared"@,
        DiagKind::DuplicateSignals => "object already has signals"@,
        DiagKind::InheritWithoutBase => "inherited signal has no base class that resolves"@,
        DiagKind::DuplicateRename => "rename is used twice"@,
        DiagKind::SignalNameCollision => "signal name is already taken"@,
        DiagKind::PropertyNameCollision => "property name is already taken"@,
        DiagKind::UnsupportedType => "type has no C++ counterpart"@,
        DiagKind::BorrowOfOwned => "type can only be handed over, not borrowed"@,
        DiagKind::OwnedOfBorrowed => "type can only be borrowed, not handed over"@,
    }
}

/// The character of a decimal digit.
pub open spec fn digit(d: int) -> char {
    "0123456789"@[d]
}

/// The decimal numeral of a number, without leading zeros.
pub open spec fn decimal(n: nat) -> Seq<char>
    decreases n,
{
    if n < 10 {
        seq![digit(n as int)]
    } else {
        decimal(n / 10) + seq![digit((n % 10) as int)]
    }
}

/// A diagnostic as a line of text: line, column, message.
pub open spec fn diagnostic_text(d: Diagnostic) -> Seq<char> {
    decimal(d.pos.line as nat) + ":"@ + decimal(d.pos.column as nat) + ": "@ + description(d.kind)
}

/// What a diagnostic of the kind says.
pub fn describe(kind: DiagKind) -> (text: &'static str)
    ensures
        text@ == description(kind),
{
    match kind {
        DiagKind::MalformedName => "name is not an identifier",
        DiagKind::PropertyWithoutType => "property has no type",
        DiagKind::UnresolvedReceiver => "invokable must take self, &self or Pin<&mut Self>",
        DiagKind::DuplicateField => "field name is used twice",
        DiagKind::DuplicateObject => "object is declared twice",
        DiagKind::UnknownObject => "signals belong to an object that is not declared",
        DiagKind::DuplicateSignals => "object already has signals",
        DiagKind::InheritWithoutBase => "inherited signal has no base class that resolves",
        DiagKind::DuplicateRename => "rename is used twice",
        DiagKind::SignalNameCollision => "signal name is already taken",
        DiagKind::PropertyNameCollision => "property name is already taken",
        DiagKind::UnsupportedType => "type has no C++ counterpart",
        DiagKind::BorrowOfOwned => "type can only be handed over, not borrowed",
        DiagKind::OwnedOfBorrowed => "type can only be borrowed, not handed over",
    }
}

/// The decimal numeral of a number.
pub fn print_decimal(n: u32) -> (out: String)
    ensures
        out@ == decimal(n as nat),
    decreases n,
{
    let digits = "0123456789";
    proof {
        reveal_strlit("0123456789");
    }
    if n < 10 {
        let k: usize = n as usize;
        let one = digits.substring_char(k, k + 1);
        assert(one@ =~= seq![digit(n as int)]);
        String::from_str(one)
    } else {
        let k: usize = (n % 10) as usize;
        let one = digits.substring_char(k, k + 1);
        assert(one@ =~= seq![digit((n % 10) as int)]);
        let mut out = print_decimal(n / 10);
        out.append(one);
        out
    }
}

impl Diagnostic {
    /// The diagnostic as a line of text: line, column, message.
    pub fn render(&self) -> (out: String)
        ensures
            out@ == diagnostic_text(*self),
    {
        let mut out = print_decimal(self.pos.line);
        out.append(":");
        let column = print_decimal(self.pos.column);
        out.append(column.as_str());
        out.append(": ");
        out.append(describe(self.kind));
        out
    }
}

} // verus!
