//! Access-control lists in their binary form: a header followed by entries,
//! each a kind, a permission mask and the principal's identifier bytes.
use vstd::prelude::*;
use vstd::slice::{slice_subrange, slice_to_vec};
use crate::sid::{u16_le, u32_le, read_u16_le, read_u32_le};

verus! {

/// The size of the list header and of an entry's header plus mask.
pub const HEADER_LEN: usize = 8;

/// The kind of an entry; only `Allow` entries take part in the analysis.
#[derive(PartialEq, Eq, Structural, Clone, Copy, Debug)]
pub enum AceKind {
    Allow,
    Deny,
    Other(u8),
}

/// One access-control entry: a permission mask bound to a principal.
#[derive(Debug)]
pub struct Ace {
    pub kind: AceKind,
    pub mask: u32,
    /// The principal's identifier, as the bytes that follow the mask.
    pub principal: Vec<u8>,
}

/// What an entry holds: its kind, its mask and its principal's bytes.
pub type AceModel = (AceKind, u32, Seq<u8>);

impl View for Ace {
    type V = AceModel;

    open spec fn view(&self) -> AceModel {
        (self.kind, self.mask, self.principal@)
    }
}

impl Ace {
    /// Builds an entry.
    pub fn new(kind: AceKind, mask: u32, principal: Vec<u8>) -> (r: Ace)
        ensures
            r@ == (kind, mask, principal@),
    {
        Ace { kind, mask, principal }
    }
}

/// The views of a sequence of entries.
pub open spec fn models(aces: Seq<Ace>) -> Seq<AceModel> {
    aces.map_values(|a: Ace| a@)
}

/// The kind that the type byte `t` stands for.
pub open spec fn kind_of(t: u8) -> AceKind {
    if t == 0 {
        AceKind::Allow
    } else if t == 1 {
        AceKind::Deny
    } else {
        AceKind::Other(t)
    }
}

/// The declared size of the entry at `off`.
pub open spec fn ace_size(b: Seq<u8>, off: int) -> nat {
    u16_le(b, off + 2)
}

/// Whether the entry at `off` lies whole before `end` and holds a mask.
pub open spec fn ace_fits(b: Seq<u8>, off: int, end: int) -> bool {
    0 <= off && off + HEADER_LEN <= end && end <= b.len() && ace_size(b, off) >= HEADER_LEN && off + ace_size(
        b,
        off,
    ) <= end
}

/// The entry at `off`.
pub open spec fn ace_model(b: Seq<u8>, off: int) -> AceModel {
    (kind_of(b[off]), u32_le(b, off + 4) as u32, b.subrange(off + 8, off + ace_size(b, off)))
}

/// The `n` entries that start at `off` and end by `end`, or `None` when one of
/// them does not fit.
pub open spec fn aces_from(b: Seq<u8>, off: int, n: nat, end: int) -> Option<Seq<AceModel>>
    decreases n,
{
    if n == 0 {
        Some(Seq::empty())
    } else if !ace_fits(b, off, end) {
        None
    } else {
        match aces_from(b, off + ace_size(b, off), (n - 1) as nat, end) {
            Some(rest) => Some(seq![ace_model(b, off)] + rest),
            None => None,
        }
    }
}

/// The entries of the list in `b`, or `None` when it is malformed: a header
/// shorter than eight bytes, a declared size beyond the buffer, or an entry
/// that overruns the declared size.
pub open spec fn acl_entries(b: Seq<u8>) -> Option<Seq<AceModel>> {
    if b.len() < HEADER_LEN || u16_le(b, 2) < HEADER_LEN || u16_le(b, 2) > b.len() {
        None
    } else {
        aces_from(b, HEADER_LEN as int, u16_le(b, 4), u16_le(b, 2) as int)
    }
}

/// Puts `prefix` before what `rest` holds, if anything.
pub open spec fn prepend(prefix: Seq<AceModel>, rest: Option<Seq<AceModel>>) -> Option<Seq<AceModel>> {
    match rest {
        Some(r) => Some(prefix + r),
        None => None,
    }
}

/// Parses an access-control list, checking every declared size against the
/// buffer before reading.
pub fn parse_acl(b: &[u8]) -> (r: Option<Vec<Ace>>)
    ensures
        match r {
            Some(v) => acl_entries(b@) == Some(models(v@)),
            None => acl_entries(b@) is None,
        },
{
    if b.len() < HEADER_LEN {
        return None;
    }
    let end = read_u16_le(b, 2) as usize;
    if end < HEADER_LEN || end > b.len() {
        return None;
    }
    let count = read_u16_le(b, 4) as usize;
    let mut aces: Vec<Ace> = Vec::new();
    let mut off: usize = HEADER_LEN;
    let mut i: usize = 0;
    while i < count
        invariant
            end <= b@.len(),
            end == u16_le(b@, 2),
            count == u16_le(b@, 4),
            HEADER_LEN <= end,
            i <= count,
            off <= end,
            acl_entries(b@) == prepend(models(aces@), aces_from(b@, off as int, (count - i) as nat, end as int)),
        decreases count - i,
    {
        proof {
            assert(ace_fits(b@, off as int, end as int) ==> aces_from(b@, off as int, (count - i) as nat, end as int)
                == prepend(seq![ace_model(b@, off as int)], aces_from(b@, off as int + ace_size(b@, off as int), (count - i - 1) as nat, end as int)));
        }
        if off + HEADER_LEN > end {
            return None;
        }
        let size = read_u16_le(b, off + 2) as usize;
        if size < HEADER_LEN || size > end - off {
            return None;
        }
        let t = b[off];
        let kind = if t == 0 {
            AceKind::Allow
        } else if t == 1 {
            AceKind::Deny
        } else {
            AceKind::Other(t)
        };
        let mask = read_u32_le(b, off + 4);
        let principal = slice_to_vec(slice_subrange(b, off + 8, off + size));
        let ace = Ace { kind, mask, principal };
        let ghost before = aces@;
        aces.push(ace);
        proof {
            assert(ace@ == ace_model(b@, off as int)) by {
                assert(ace.principal@ =~= b@.subrange(off + 8, off + size));
            }
            assert(models(aces@) =~= models(before) + seq![ace_model(b@, off as int)]);
            assert(models(aces@) + aces_from(b@, (off + size) as int, (count - i - 1) as nat, end as int)->0
                =~= models(before) + (seq![ace_model(b@, off as int)] + aces_from(b@, (off + size) as int, (count - i - 1) as nat, end as int)->0));
        }
        off = off + size;
        i = i + 1;
    }
    proof {
        assert(models(aces@) + Seq::<AceModel>::empty() =~= models(aces@));
    }
    Some(aces)
}

} // verus!
