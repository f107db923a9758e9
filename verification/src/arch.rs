//! The target architecture decides between the two forms in which the value
//! types with floating-point fields come: one for 32-bit targets, one for
//! 64-bit targets.

use vstd::prelude::*;
use vstd::string::*;
use crate::text::same_text;

verus! {

/// The width of a pointer on the target.
#[derive(Clone, Copy, Debug, PartialEq, Eq, Structural)]
pub enum Width {
    Bits32,
    Bits64,
}

/// The width of the named architecture, for the four that are supported.
pub open spec fn width_of(arch: Seq<char>) -> Option<Width> {
    if arch == "x86"@ || arch == "arm"@ {
        Some(Width::Bits32)
    } else if arch == "x86_64"@ || arch == "aarch64"@ {
        Some(Width::Bits64)
    } else {
        None
    }
}

pub open spec fn width_suffix(width: Width) -> Seq<char> {
    match width {
        Width::Bits32 => "32"@,
        Width::Bits64 => "64"@,
    }
}

/// The file that holds the form of a type for a width: `qpointf` at 64 bits
/// is in `qpointf/qpointf64.rs`.
pub open spec fn variant_path(stem: Seq<char>, width: Width) -> Seq<char> {
    stem + "/"@ + stem + width_suffix(width) + ".rs"@
}

/// The width of the named architecture; `None` for one that is not supported.
pub fn pointer_width(arch: &str) -> (width: Option<Width>)
    ensures
        width == width_of(arch@),
{
    if same_text(arch, "x86") || same_text(arch, "arm") {
        Some(Width::Bits32)
    } else if same_text(arch, "x86_64") || same_text(arch, "aarch64") {
        Some(Width::Bits64)
    } else {
        None
    }
}

/// The file that holds the form of a type for a width.
pub fn variant_file(stem: &str, width: Width) -> (path: String)
    ensures
        path@ == variant_path(stem@, width),
{
    let mut path = String::from_str(stem);
    path.append("/");
    path.append(stem);
    match width {
        Width::Bits32 => path.append("32"),
        Width::Bits64 => path.append("64"),
    }
    path.append(".rs");
    path
}

} // verus!
