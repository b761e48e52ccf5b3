use vstd::prelude::*;

use crate::identity::Identity;

verus! {

/// The little-endian bytes of `x`.
pub open spec fn le_bytes(x: u32) -> Seq<u8> {
    seq![
        (x % 256) as u8,
        (x / 256 % 256) as u8,
        (x / 65536 % 256) as u8,
        (x / 16777216) as u8,
    ]
}

/// The namespace tag of poll records.
pub open spec fn poll_tag() -> Seq<u8> {
    seq![112u8, 111u8, 108u8, 108u8]
}

/// The namespace tag of voter records.
pub open spec fn user_tag() -> Seq<u8> {
    seq![117u8, 115u8, 101u8, 114u8]
}

/// Where the poll with id `poll_id` lives: the tag `poll`, then the id.
pub open spec fn poll_address(poll_id: u32) -> Seq<u8> {
    poll_tag() + le_bytes(poll_id)
}

/// Where the voter record of `owner` for poll `poll_id` lives: the tag `user`,
/// then the owner's key, then the poll id.
pub open spec fn user_address(owner: Identity, poll_id: u32) -> Seq<u8> {
    user_tag() + owner.bytes@ + le_bytes(poll_id)
}

/// Distinct keys give distinct addresses, and no poll shares an address with a
/// voter record.
pub proof fn lemma_addresses_distinct(a: u32, b: u32, o: Identity, p: Identity)
    ensures
        poll_address(a) == poll_address(b) ==> a == b,
        user_address(o, a) == user_address(p, b) ==> o == p && a == b,
        poll_address(a) != user_address(o, b),
{
    lemma_le_bytes_injective(a, b);
    if poll_address(a) == poll_address(b) {
        assert(le_bytes(a) =~= poll_address(a).subrange(4, 8));
        assert(le_bytes(b) =~= poll_address(b).subrange(4, 8));
    }
    if user_address(o, a) == user_address(p, b) {
        assert(o.bytes@ =~= user_address(o, a).subrange(4, 36));
        assert(p.bytes@ =~= user_address(p, b).subrange(4, 36));
        assert(le_bytes(a) =~= user_address(o, a).subrange(36, 40));
        assert(le_bytes(b) =~= user_address(p, b).subrange(36, 40));
        assert(o.bytes =~= p.bytes);
    }
    assert(poll_address(a).len() != user_address(o, b).len());
}

/// The four bytes determine the integer.
proof fn lemma_le_bytes_injective(a: u32, b: u32)
    ensures
        le_bytes(a) == le_bytes(b) ==> a == b,
{
    if le_bytes(a) == le_bytes(b) {
        assert(le_bytes(a)[0] == le_bytes(b)[0]);
        assert(le_bytes(a)[1] == le_bytes(b)[1]);
        assert(le_bytes(a)[2] == le_bytes(b)[2]);
        assert(le_bytes(a)[3] == le_bytes(b)[3]);
    }
}

/// The little-endian bytes of `x`, appended to `out`.
fn push_le_bytes(out: &mut Vec<u8>, x: u32)
    ensures
        final(out)@ == old(out)@ + le_bytes(x),
{
    out.push((x % 256) as u8);
    out.push((x / 256 % 256) as u8);
    out.push((x / 65536 % 256) as u8);
    out.push((x / 16777216) as u8);
    assert(final(out)@ =~= old(out)@ + le_bytes(x));
}

/// The address of the poll with id `poll_id`.
pub fn poll_seeds(poll_id: u32) -> (r: Vec<u8>)
    ensures
        r@ == poll_address(poll_id),
{
    let mut out: Vec<u8> = vec![112u8, 111u8, 108u8, 108u8];
    push_le_bytes(&mut out, poll_id);
    assert(out@ =~= poll_address(poll_id));
    out
}

/// The address of the voter record of `owner` for poll `poll_id`.
pub fn user_seeds(owner: &Identity, poll_id: u32) -> (r: Vec<u8>)
    ensures
        r@ == user_address(*owner, poll_id),
{
    let mut out: Vec<u8> = vec![117u8, 115u8, 101u8, 114u8];
    let mut i: usize = 0;
    while i < 32
        invariant
            i <= 32,
            out@ == user_tag() + owner.bytes@.subrange(0, i as int),
        decreases 32 - i,
    {
        out.push(owner.bytes[i]);
        i = i + 1;
        assert(out@ =~= user_tag() + owner.bytes@.subrange(0, i as int));
    }
    assert(owner.bytes@.subrange(0, 32) =~= owner.bytes@);
    push_le_bytes(&mut out, poll_id);
    assert(out@ =~= user_address(*owner, poll_id));
    out
}

/// Whether two addresses are the same.
pub fn same_address(a: &Vec<u8>, b: &Vec<u8>) -> (r: bool)
    ensures
        r == (a@ == b@),
{
    if a.len() != b.len() {
        return false;
    }
    let mut i: usize = 0;
    while i < a.len()
        invariant
            i <= a.len(),
            a.len() == b.len(),
            a@.subrange(0, i as int) == b@.subrange(0, i as int),
        decreases a.len() - i,
    {
        if a[i] != b[i] {
            assert(a@[i as int] != b@[i as int]);
            return false;
        }
        assert(a@.subrange(0, i + 1) =~= a@.subrange(0, i as int).push(a@[i as int]));
        assert(b@.subrange(0, i + 1) =~= b@.subrange(0, i as int).push(b@[i as int]));
        i = i + 1;
    }
    assert(a@ =~= a@.subrange(0, a.len() as int));
    assert(b@ =~= b@.subrange(0, b.len() as int));
    true
}

} // verus!
