//! Permission masks: the write-equivalent bits and the compact rendering of a
//! mask as "F", "R", "W", "RW" or a hexadecimal literal.
use vstd::prelude::*;
use vstd::string::StringExecFns;
use crate::text::{digits, push_digits};

verus! {

/// Object-specific right to read data.
pub const FILE_READ_DATA: u32 = 0x0000_0001;

/// Object-specific right to write data.
pub const FILE_WRITE_DATA: u32 = 0x0000_0002;

/// Right to modify the discretionary access-control list.
pub const WRITE_DAC: u32 = 0x0004_0000;

/// Right to change the owner.
pub const WRITE_OWNER: u32 = 0x0008_0000;

/// Generic full control.
pub const GENERIC_ALL: u32 = 0x1000_0000;

/// Generic write.
pub const GENERIC_WRITE: u32 = 0x4000_0000;

/// Generic read.
pub const GENERIC_READ: u32 = 0x8000_0000;

/// The bits that make a grant write-equivalent. The policy-modification rights
/// belong here: whoever may rewrite the access list may grant itself anything.
pub const WRITABLE_MASK: u32 = 0x400C_0002;

/// Whether `mask` grants write-equivalent access.
pub open spec fn grants_write(mask: u32) -> bool {
    mask & WRITABLE_MASK != 0
}

/// Whether `mask` grants read-equivalent access.
pub open spec fn grants_read(mask: u32) -> bool {
    mask & FILE_READ_DATA != 0 || mask & GENERIC_READ != 0
}

/// "R" and "W" for the read and write classes that `mask` grants.
pub open spec fn class_letters(mask: u32) -> Seq<char> {
    (if grants_read(mask) { seq!['R'] } else { Seq::empty() }) + (if grants_write(mask) {
        seq!['W']
    } else {
        Seq::empty()
    })
}

/// The rendering of a mask: "F" for full control; else the class letters;
/// else the mask as upper-case hexadecimal after "0x".
pub open spec fn format_spec(mask: u32) -> Seq<char> {
    if mask & GENERIC_ALL != 0 {
        seq!['F']
    } else if class_letters(mask).len() > 0 {
        class_letters(mask)
    } else {
        seq!['0', 'x'] + digits(mask as nat, true)
    }
}

/// Whether `mask` grants write-equivalent access.
pub fn is_writable_mask(mask: u32) -> (r: bool)
    ensures
        r == grants_write(mask),
{
    mask & WRITABLE_MASK != 0
}

/// Renders `mask` compactly; total, and the same mask always gives the same text.
pub fn format_access_mask(mask: u32) -> (r: String)
    ensures
        r@ == format_spec(mask),
{
    proof {
        reveal_strlit("F");
        reveal_strlit("R");
        reveal_strlit("W");
        reveal_strlit("0x");
    }
    if mask & GENERIC_ALL != 0 {
        return String::from_str("F");
    }
    let mut perms = String::new();
    if mask & FILE_READ_DATA != 0 || mask & GENERIC_READ != 0 {
        perms.append("R");
    }
    if mask & WRITABLE_MASK != 0 {
        perms.append("W");
    }
    if perms.as_str().is_empty() {
        let mut hex = String::from_str("0x");
        push_digits(&mut hex, mask as u64, true);
        hex
    } else {
        assert(perms@ =~= class_letters(mask));
        perms
    }
}

/// Full control renders as "F", whatever other bits are set.
pub proof fn lemma_full_control_renders_f(mask: u32)
    requires
        mask & GENERIC_ALL != 0,
    ensures
        format_spec(mask) == seq!['F'],
{
}

/// A rendering is never empty, so every mask yields some text.
pub proof fn lemma_format_nonempty(mask: u32)
    ensures
        format_spec(mask).len() > 0,
{
    if mask & GENERIC_ALL == 0 && class_letters(mask).len() == 0 {
        assert((seq!['0', 'x'] + digits(mask as nat, true)).len() >= 2);
    }
}

} // verus!
