//! How a type is written at a field, a parameter or a return, and the parser
//! that reads it: `T`, `&T`, `&'a T` and `UniquePtr<T>`, where `T` and `a`
//! are identifiers.

use vstd::prelude::*;
use vstd::string::*;
use crate::decl::{type_opt, TypeExpr, TypeExprView, TypeShape};
use crate::text::{is_ident, is_ident_char, is_identifier, same_text};
use crate::typemap::source_text;

verus! {

/// The text of a type. A reference may name a lifetime; the other shapes
/// have none.
pub open spec fn spelling(t: TypeExprView, lifetime: Option<Seq<char>>) -> Seq<char> {
    match t.shape {
        TypeShape::Plain => t.name,
        TypeShape::Borrowed => match lifetime {
            Some(l) => "&'"@ + l + " "@ + t.name,
            None => "&"@ + t.name,
        },
        TypeShape::Owned => "UniquePtr<"@ + t.name + ">"@,
    }
}

/// Whether a type and a lifetime can be spelled: both names are identifiers,
/// and only a reference has a lifetime.
pub open spec fn spellable(t: TypeExprView, lifetime: Option<Seq<char>>) -> bool {
    &&& is_ident(t.name)
    &&& match lifetime {
        Some(l) => t.shape == TypeShape::Borrowed && is_ident(l),
        None => true,
    }
}

/// The index of the first space at or after `from`, or the length of the
/// text if there is none.
pub open spec fn space_from(s: Seq<char>, from: int) -> int
    decreases s.len() - from,
{
    if from < 0 || from >= s.len() {
        s.len() as int
    } else if s[from] == ' ' {
        from
    } else {
        space_from(s, from + 1)
    }
}

pub open spec fn starts_with(s: Seq<char>, prefix: Seq<char>) -> bool {
    s.len() >= prefix.len() && s.subrange(0, prefix.len() as int) == prefix
}

pub open spec fn borrowed(name: Seq<char>) -> TypeExprView {
    TypeExprView { shape: TypeShape::Borrowed, name }
}

/// The type that a text spells, if it spells one.
pub open spec fn parsed(s: Seq<char>) -> Option<TypeExprView> {
    let n = s.len() as int;
    if n > 0 && s[0] == '&' {
        if n > 1 && s[1] == '\'' {
            let k = space_from(s, 2);
            if k < n && is_ident(s.subrange(2, k)) && is_ident(s.subrange(k + 1, n)) {
                Some(borrowed(s.subrange(k + 1, n)))
            } else {
                None
            }
        } else if is_ident(s.subrange(1, n)) {
            Some(borrowed(s.subrange(1, n)))
        } else {
            None
        }
    } else if n > 11 && starts_with(s, "UniquePtr<"@) && s[n - 1] == '>' && is_ident(
        s.subrange(10, n - 1),
    ) {
        Some(TypeExprView { shape: TypeShape::Owned, name: s.subrange(10, n - 1) })
    } else if is_ident(s) {
        Some(TypeExprView { shape: TypeShape::Plain, name: s })
    } else {
        None
    }
}

fn find_space(s: &str, from: usize, n: usize) -> (k: usize)
    requires
        n == s@.len(),
        from <= n,
    ensures
        k == space_from(s@, from as int),
        from <= k <= n,
{
    let mut k: usize = from;
    while k < n
        invariant
            n == s@.len(),
            from <= k <= n,
            space_from(s@, from as int) == space_from(s@, k as int),
        decreases n - k,
    {
        if s.get_char(k) == ' ' {
            return k;
        }
        k = k + 1;
    }
    k
}

fn named(shape: TypeShape, name: &str) -> (out: Option<TypeExpr>)
    ensures
        is_ident(name@) ==> out.is_some() && out.unwrap()@ == (TypeExprView {
            shape,
            name: name@,
        }),
        !is_ident(name@) ==> out.is_none(),
{
    if is_identifier(name) {
        Some(TypeExpr { shape, name: String::from_str(name) })
    } else {
        None
    }
}

/// Reads a type as it is written. `None` means that the text spells no type.
pub fn parse_type(s: &str) -> (out: Option<TypeExpr>)
    ensures
        type_opt(out) == parsed(s@),
{
    let n: usize = s.unicode_len();
    if n > 0 && s.get_char(0) == '&' {
        if n > 1 && s.get_char(1) == '\'' {
            let k = find_space(s, 2, n);
            if k < n && is_identifier(s.substring_char(2, k)) {
                named(TypeShape::Borrowed, s.substring_char(k + 1, n))
            } else {
                None
            }
        } else {
            named(TypeShape::Borrowed, s.substring_char(1, n))
        }
    } else {
        proof {
            reveal_strlit("UniquePtr<");
        }
        if n > 11 && same_text(s.substring_char(0, 10), "UniquePtr<") && s.get_char(n - 1) == '>'
            && is_identifier(s.substring_char(10, n - 1)) {
            named(TypeShape::Owned, s.substring_char(10, n - 1))
        } else {
            named(TypeShape::Plain, s)
        }
    }
}

proof fn lemma_space_found(s: Seq<char>, from: int, k: int)
    requires
        0 <= from <= k < s.len(),
        s[k] == ' ',
        forall|i: int| from <= i < k ==> s[i] != ' ',
    ensures
        space_from(s, from) == k,
    decreases k - from,
{
    if from < k {
        lemma_space_found(s, from + 1, k);
    }
}

/// Every type that can be spelled is read back from its spelling, whatever
/// the lifetime: the parser undoes the spelling.
pub proof fn spelling_reads_back(t: TypeExprView, lifetime: Option<Seq<char>>)
    requires
        spellable(t, lifetime),
    ensures
        parsed(spelling(t, lifetime)) == Some(t),
{
    reveal_strlit("UniquePtr<");
    reveal_strlit("&");
    reveal_strlit("&'");
    reveal_strlit(" ");
    reveal_strlit(">");
    let s = spelling(t, lifetime);
    let n = s.len() as int;
    match t.shape {
        TypeShape::Plain => {
            assert(s == t.name);
            assert(s[0] != '&');
            if n > 11 && starts_with(s, "UniquePtr<"@) {
                assert(s.subrange(0, 10)[9] == '<');
                assert(s[9] == '<');
                assert(is_ident_char(s[9]));
            }
        },
        TypeShape::Borrowed => {
            match lifetime {
                None => {
                    assert(s[0] == '&');
                    assert(s[1] == t.name[0]);
                    assert(s.subrange(1, n) =~= t.name);
                },
                Some(l) => {
                    let k = 2 + l.len() as int;
                    assert(s[0] == '&');
                    assert(s[1] == '\'');
                    assert(s[k] == ' ');
                    assert forall|i: int| 2 <= i < k implies s[i] != ' ' by {
                        assert(s[i] == l[i - 2]);
                        assert(is_ident_char(l[i - 2]));
                    }
                    lemma_space_found(s, 2, k);
                    assert(s.subrange(2, k) =~= l);
                    assert(s.subrange(k + 1, n) =~= t.name);
                },
            }
        },
        TypeShape::Owned => {
            assert(s[0] == 'U');
            assert(s.subrange(0, 10) =~= "UniquePtr<"@);
            assert(s[n - 1] == '>');
            assert(s.subrange(10, n - 1) =~= t.name);
        },
    }
}

/// Only spellings are read: what the parser returns can be spelled, and the
/// text is its spelling with some lifetime or with none.
pub proof fn only_spellings_are_read(s: Seq<char>)
    requires
        parsed(s).is_some(),
    ensures
        is_ident(parsed(s).unwrap().name),
        exists|lifetime: Option<Seq<char>>|
            spellable(parsed(s).unwrap(), lifetime) && s == #[trigger] spelling(
                parsed(s).unwrap(),
                lifetime,
            ),
{
    reveal_strlit("UniquePtr<");
    reveal_strlit("&");
    reveal_strlit("&'");
    reveal_strlit(" ");
    reveal_strlit(">");
    let t = parsed(s).unwrap();
    let n = s.len() as int;
    if n > 0 && s[0] == '&' {
        if n > 1 && s[1] == '\'' {
            let k = space_from(s, 2);
            lemma_space_is_space(s, 2);
            let l = s.subrange(2, k);
            assert(s =~= spelling(t, Some(l)));
            assert(spellable(t, Some(l)));
        } else {
            assert(s =~= spelling(t, None));
            assert(spellable(t, None));
        }
    } else if t.shape == TypeShape::Owned {
        assert(s.subrange(0, 10) == "UniquePtr<"@);
        assert forall|i: int| 0 <= i < 10 implies s[i] == "UniquePtr<"@[i] by {
            assert(s.subrange(0, 10)[i] == s[i]);
        }
        assert(s =~= spelling(t, None));
        assert(spellable(t, None));
    } else {
        assert(s =~= spelling(t, None));
        assert(spellable(t, None));
    }
}

proof fn lemma_space_is_space(s: Seq<char>, from: int)
    requires
        0 <= from,
    ensures
        from <= space_from(s, from) || space_from(s, from) == s.len(),
        space_from(s, from) < s.len() ==> s[space_from(s, from)] == ' ',
    decreases s.len() - from,
{
    if from < s.len() && s[from] != ' ' {
        lemma_space_is_space(s, from + 1);
    }
}

/// The parser reads the Rust spelling that the type mapping gives a type.
pub proof fn source_text_reads_back(t: TypeExprView)
    requires
        is_ident(t.name),
    ensures
        parsed(source_text(t)) == Some(t),
{
    spelling_reads_back(t, None);
}

} // verus!
