//! Principal identifiers in their binary form: validation, the canonical
//! "S-1-..." text, and the classification of the broad well-known groups.
use vstd::prelude::*;
use vstd::string::StringExecFns;
use crate::text::{digits, hex_padded, push_digits, push_hex_padded};

verus! {

/// The most sub-authorities an identifier may hold.
pub const MAX_SUB_AUTHORITIES: u8 = 15;

/// The little-endian 32-bit value at `i`.
pub open spec fn u32_le(b: Seq<u8>, i: int) -> nat {
    (b[i] + 256 * b[i + 1] + 65536 * b[i + 2] + 16777216 * b[i + 3]) as nat
}

/// The little-endian 16-bit value at `i`.
pub open spec fn u16_le(b: Seq<u8>, i: int) -> nat {
    (b[i] + 256 * b[i + 1]) as nat
}

/// The number of sub-authorities that `b` declares.
pub open spec fn sub_count(b: Seq<u8>) -> nat {
    b[1] as nat
}

/// Whether `b` begins with a well-formed identifier: revision 1, at most
/// fifteen sub-authorities, and all of them present.
pub open spec fn sid_valid(b: Seq<u8>) -> bool {
    &&& b.len() >= 8
    &&& b[0] == 1
    &&& b[1] <= MAX_SUB_AUTHORITIES
    &&& b.len() >= 8 + 4 * sub_count(b)
}

/// The 48-bit big-endian identifier authority.
pub open spec fn authority(b: Seq<u8>) -> nat {
    (b[2] * 0x100_0000_0000 + b[3] * 0x1_0000_0000 + b[4] * 0x100_0000 + b[5] * 0x1_0000
        + b[6] * 0x100 + b[7]) as nat
}

/// The `i`-th sub-authority.
pub open spec fn sub_authority(b: Seq<u8>, i: int) -> nat {
    u32_le(b, 8 + 4 * i)
}

/// The authority as text: decimal when it fits in 32 bits, else twelve
/// hexadecimal digits after "0x".
pub open spec fn authority_text(b: Seq<u8>) -> Seq<char> {
    if b[2] == 0 && b[3] == 0 {
        digits(authority(b), false)
    } else {
        seq!['0', 'x'] + hex_padded(authority(b), 12)
    }
}

/// "-" and the decimal value of each of the first `k` sub-authorities.
pub open spec fn subs_text(b: Seq<u8>, k: nat) -> Seq<char>
    decreases k,
{
    if k == 0 {
        Seq::empty()
    } else {
        subs_text(b, (k - 1) as nat) + seq!['-'] + digits(sub_authority(b, k - 1), false)
    }
}

/// The canonical text of the identifier at the start of `b`; empty when it is
/// not well formed.
pub open spec fn sid_text(b: Seq<u8>) -> Seq<char> {
    if sid_valid(b) {
        seq!['S', '-', '1', '-'] + authority_text(b) + subs_text(b, sub_count(b))
    } else {
        Seq::empty()
    }
}

/// The well-known identifier of everyone (S-1-1-0).
pub open spec fn world_sid() -> Seq<u8> {
    seq![1u8, 1, 0, 0, 0, 0, 0, 1, 0, 0, 0, 0]
}

/// The well-known identifier of authenticated users (S-1-5-11).
pub open spec fn authenticated_users_sid() -> Seq<u8> {
    seq![1u8, 1, 0, 0, 0, 0, 0, 5, 11, 0, 0, 0]
}

/// The well-known identifier of the local users group (S-1-5-32-545).
pub open spec fn builtin_users_sid() -> Seq<u8> {
    seq![1u8, 2, 0, 0, 0, 0, 0, 5, 32, 0, 0, 0, 0x21, 0x02, 0, 0]
}

/// Whether the identifier at the start of `b` is `known`.
pub open spec fn sid_is(b: Seq<u8>, known: Seq<u8>) -> bool {
    b.len() >= known.len() && b.subrange(0, known.len() as int) == known
}

/// The class of a principal, for the choice of which grant to report.
#[derive(PartialEq, Eq, Structural, Clone, Copy, Debug)]
pub enum PrincipalClass {
    /// Everyone.
    World,
    /// Every authenticated caller.
    AuthenticatedUsers,
    /// The local users group.
    BuiltinUsers,
    /// Any other principal.
    Specific,
}

impl PrincipalClass {
    /// Whether the class stands for a wide population of callers.
    pub open spec fn broad(self) -> bool {
        !(self is Specific)
    }

    /// Whether the class stands for a wide population of callers.
    pub fn is_broad(&self) -> (r: bool)
        ensures
            r == self.broad(),
    {
        !matches!(self, PrincipalClass::Specific)
    }
}

/// The class of the identifier at the start of `b`.
pub open spec fn class_of(b: Seq<u8>) -> PrincipalClass {
    if sid_is(b, world_sid()) {
        PrincipalClass::World
    } else if sid_is(b, authenticated_users_sid()) {
        PrincipalClass::AuthenticatedUsers
    } else if sid_is(b, builtin_users_sid()) {
        PrincipalClass::BuiltinUsers
    } else {
        PrincipalClass::Specific
    }
}

/// Whether the principal of `b` is a broad well-known group.
pub open spec fn is_broad_sid(b: Seq<u8>) -> bool {
    class_of(b).broad()
}

/// Whether `b` begins with the bytes of `known`.
fn starts_with(b: &[u8], known: &[u8]) -> (r: bool)
    ensures
        r == sid_is(b@, known@),
{
    if b.len() < known.len() {
        return false;
    }
    let mut i: usize = 0;
    while i < known.len()
        invariant
            b@.len() >= known@.len(),
            i <= known@.len(),
            forall|j: int| 0 <= j < i ==> b@[j] == known@[j],
        decreases known@.len() - i,
    {
        if b[i] != known[i] {
            return false;
        }
        i = i + 1;
    }
    assert(b@.subrange(0, known@.len() as int) =~= known@);
    true
}

/// Classifies the identifier at the start of `b`.
pub fn classify_sid(b: &[u8]) -> (r: PrincipalClass)
    ensures
        r == class_of(b@),
{
    let world: Vec<u8> = vec![1u8, 1, 0, 0, 0, 0, 0, 1, 0, 0, 0, 0];
    let authenticated: Vec<u8> = vec![1u8, 1, 0, 0, 0, 0, 0, 5, 11, 0, 0, 0];
    let users: Vec<u8> = vec![1u8, 2, 0, 0, 0, 0, 0, 5, 32, 0, 0, 0, 0x21, 0x02, 0, 0];
    assert(world@ =~= world_sid());
    assert(authenticated@ =~= authenticated_users_sid());
    assert(users@ =~= builtin_users_sid());
    if starts_with(b, world.as_slice()) {
        PrincipalClass::World
    } else if starts_with(b, authenticated.as_slice()) {
        PrincipalClass::AuthenticatedUsers
    } else if starts_with(b, users.as_slice()) {
        PrincipalClass::BuiltinUsers
    } else {
        PrincipalClass::Specific
    }
}

/// Whether the principal of `b` is everyone, authenticated users or the local
/// users group: the grants worth reporting first.
pub fn is_interesting_sid(b: &[u8]) -> (r: bool)
    ensures
        r == is_broad_sid(b@),
{
    classify_sid(b).is_broad()
}

/// Reads the little-endian 32-bit value at `i`.
pub fn read_u32_le(b: &[u8], i: usize) -> (r: u32)
    requires
        i + 4 <= b@.len(),
    ensures
        r as nat == u32_le(b@, i as int),
{
    (b[i] as u32) + 256 * (b[i + 1] as u32) + 65536 * (b[i + 2] as u32) + 16777216 * (
    b[i + 3] as u32)
}

/// Reads the little-endian 16-bit value at `i`.
pub fn read_u16_le(b: &[u8], i: usize) -> (r: u16)
    requires
        i + 2 <= b@.len(),
    ensures
        r as nat == u16_le(b@, i as int),
{
    (b[i] as u16) + 256 * (b[i + 1] as u16)
}

/// The canonical text of the identifier at the start of `b`, or the empty
/// string when it is not well formed.
pub fn sid_to_string(b: &[u8]) -> (r: String)
    ensures
        r@ == sid_text(b@),
{
    if b.len() < 8 || b[0] != 1 || b[1] > MAX_SUB_AUTHORITIES || b.len() < 8 + 4 * (
    b[1] as usize) {
        return String::new();
    }
    proof {
        reveal_strlit("S-1-");
        reveal_strlit("0x");
        reveal_strlit("-");
    }
    let mut out = String::from_str("S-1-");
    let auth: u64 = (b[2] as u64) * 0x100_0000_0000 + (b[3] as u64) * 0x1_0000_0000 + (
    b[4] as u64) * 0x100_0000 + (b[5] as u64) * 0x1_0000 + (b[6] as u64) * 0x100 + (b[7] as u64);
    if b[2] == 0 && b[3] == 0 {
        push_digits(&mut out, auth, false);
    } else {
        out.append("0x");
        push_hex_padded(&mut out, auth, 12);
    }
    assert(out@ =~= seq!['S', '-', '1', '-'] + authority_text(b@));
    let count: usize = b[1] as usize;
    let mut k: usize = 0;
    while k < count
        invariant
            sid_valid(b@),
            count == sub_count(b@),
            k <= count,
            out@ == seq!['S', '-', '1', '-'] + authority_text(b@) + subs_text(b@, k as nat),
        decreases count - k,
    {
        let v = read_u32_le(b, 8 + 4 * k);
        let ghost head = seq!['S', '-', '1', '-'] + authority_text(b@);
        assert(subs_text(b@, (k + 1) as nat) == subs_text(b@, k as nat) + seq!['-'] + digits(
            sub_authority(b@, k as int),
            false,
        ));
        proof {
            reveal_strlit("-");
        }
        out.append("-");
        push_digits(&mut out, v as u64, false);
        k = k + 1;
        assert(out@ =~= head + subs_text(b@, k as nat));
    }
    out
}

} // verus!
