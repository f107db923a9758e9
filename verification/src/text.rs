//! Names as sequences of characters, and the two case conventions that the
//! generated C++ uses.

use vstd::prelude::*;
use vstd::string::*;

verus! {

pub open spec fn is_upper(c: char) -> bool {
    'A' <= c && c <= 'Z'
}

pub open spec fn is_lower(c: char) -> bool {
    'a' <= c && c <= 'z'
}

pub open spec fn is_digit(c: char) -> bool {
    '0' <= c && c <= '9'
}

/// The lower-case form of an ASCII capital; any other character is kept.
pub open spec fn to_lower(c: char) -> char {
    if is_upper(c) {
        ((c as u8) + 32) as char
    } else {
        c
    }
}

/// The capital form of an ASCII lower-case letter; any other character is kept.
pub open spec fn to_upper(c: char) -> char {
    if is_lower(c) {
        ((c as u8) - 32) as char
    } else {
        c
    }
}

/// `DataChanged` becomes `dataChanged`: the first character is lowered, the
/// rest is kept.
pub open spec fn camel(s: Seq<char>) -> Seq<char> {
    if s.len() == 0 {
        s
    } else {
        s.update(0, to_lower(s[0]))
    }
}

/// `number` becomes `Number`: the first character is raised, the rest is kept.
pub open spec fn pascal(s: Seq<char>) -> Seq<char> {
    if s.len() == 0 {
        s
    } else {
        s.update(0, to_upper(s[0]))
    }
}

pub open spec fn is_ident_start(c: char) -> bool {
    is_upper(c) || is_lower(c) || c == '_'
}

pub open spec fn is_ident_char(c: char) -> bool {
    is_ident_start(c) || is_digit(c)
}

/// A name that both Rust and C++ accept: a letter or underscore, then
/// letters, digits and underscores.
pub open spec fn is_ident(s: Seq<char>) -> bool {
    &&& s.len() > 0
    &&& is_ident_start(s[0])
    &&& forall|i: int| 0 <= i < s.len() ==> is_ident_char(#[trigger] s[i])
}

/// Whether two texts hold the same characters.
pub fn same_text(a: &str, b: &str) -> (same: bool)
    ensures
        same == (a@ == b@),
{
    String::from_str(a) == String::from_str(b)
}

/// The text with its first character lowered.
pub fn to_camel(s: &str) -> (out: String)
    ensures
        out@ == camel(s@),
{
    let n = s.unicode_len();
    if n == 0 {
        return String::from_str(s);
    }
    let first = s.get_char(0);
    if 'A' <= first && first <= 'Z' {
        let k: usize = (first as u8 - 65u8) as usize;
        let letters = "abcdefghijklmnopqrstuvwxyz";
        proof {
            reveal_strlit("abcdefghijklmnopqrstuvwxyz");
        }
        let head = letters.substring_char(k, k + 1);
        let mut out = String::from_str(head);
        out.append(s.substring_char(1, n));
        assert(out@ =~= camel(s@));
        out
    } else {
        String::from_str(s)
    }
}

/// The text with its first character raised.
pub fn to_pascal(s: &str) -> (out: String)
    ensures
        out@ == pascal(s@),
{
    let n = s.unicode_len();
    if n == 0 {
        return String::from_str(s);
    }
    let first = s.get_char(0);
    if 'a' <= first && first <= 'z' {
        let k: usize = (first as u8 - 97u8) as usize;
        let letters = "ABCDEFGHIJKLMNOPQRSTUVWXYZ";
        proof {
            reveal_strlit("ABCDEFGHIJKLMNOPQRSTUVWXYZ");
        }
        let head = letters.substring_char(k, k + 1);
        let mut out = String::from_str(head);
        out.append(s.substring_char(1, n));
        assert(out@ =~= pascal(s@));
        out
    } else {
        String::from_str(s)
    }
}

/// Whether the text is a name that both languages accept.
pub fn is_identifier(s: &str) -> (ok: bool)
    ensures
        ok == is_ident(s@),
{
    let n = s.unicode_len();
    if n == 0 {
        return false;
    }
    let mut i: usize = 0;
    while i < n
        invariant
            n == s@.len(),
            i <= n,
            i > 0 ==> is_ident_start(s@[0]),
            forall|j: int| 0 <= j < i ==> is_ident_char(#[trigger] s@[j]),
        decreases n - i,
    {
        let c = s.get_char(i);
        let letter = ('A' <= c && c <= 'Z') || ('a' <= c && c <= 'z') || c == '_';
        let digit = '0' <= c && c <= '9';
        if !(letter || (digit && i > 0)) {
            return false;
        }
        i = i + 1;
    }
    true
}

} // verus!
