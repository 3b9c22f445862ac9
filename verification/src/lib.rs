//! Sandbox-management core of a container-runtime agent: validated sandbox
//! metadata, a backend-polymorphic lifecycle state machine, and a registry
//! that mediates run/stop/remove/status/list operations by sandbox id.

use vstd::prelude::*;

pub mod backend;
pub mod data;
pub mod errors;
pub mod pinned;
pub mod registry;
pub mod runtime;
pub mod sandbox;

verus! {

/// True of characters treated as insignificant when deciding whether an
/// identifier is effectively empty: the Unicode white-space set, the same
/// characters that trimming strips.
pub open spec fn is_space_char(c: char) -> bool {
    let n = c as u32;
    n == 0x20 || (0x09 <= n && n <= 0x0D) || n == 0x85 || n == 0xA0 || n == 0x1680 || (0x2000 <= n
        && n <= 0x200A) || n == 0x2028 || n == 0x2029 || n == 0x202F || n == 0x205F || n == 0x3000
}

/// A string is blank when every character is whitespace; in particular the
/// empty string is blank. A blank identifier is rejected by validation.
pub open spec fn is_blank(s: Seq<char>) -> bool {
    forall|i: int| 0 <= i < s.len() ==> is_space_char(s[i])
}

} // verus!
