//! Storage-deposit accounting and the account hierarchy.
//!
//! Every state-growing operation measures how many bytes of persistent state
//! it added and refunds whatever part of the attached deposit exceeds the
//! price of that growth.  Account ids form a dot-separated hierarchy: the
//! parent authority of `a.b.c` is `b.c`.

use vstd::prelude::*;
use crate::errors::CommunityError;

verus! {

use vstd::string::StringSliceAdditionalSpecFns;

/// Price of one byte of persistent storage, in the smallest unit of
/// account.
pub const STORAGE_PRICE_PER_BYTE: u128 = 10_000_000_000_000_000_000;

/// The refund owed after an operation that moved storage usage from
/// `bytes_before` to `bytes_after` with `deposit` attached: the deposit
/// minus the price of the growth.  A negative refund — usage shrank
/// unexpectedly, or the deposit does not cover the growth — is a
/// `StorageAccountingError`, never a clamped value.
pub open spec fn spec_storage_refund(bytes_before: u64, bytes_after: u64, deposit: u128) -> Result<
    u128,
    CommunityError,
> {
    if bytes_after < bytes_before {
        Err(CommunityError::StorageAccountingError)
    } else if (deposit as int) < (bytes_after - bytes_before) * (STORAGE_PRICE_PER_BYTE as int) {
        Err(CommunityError::StorageAccountingError)
    } else {
        Ok((deposit - (bytes_after - bytes_before) * (STORAGE_PRICE_PER_BYTE as int)) as u128)
    }
}

/// Computes the refund exactly as `spec_storage_refund` states it.
pub fn storage_refund(bytes_before: u64, bytes_after: u64, deposit: u128) -> (r: Result<
    u128,
    CommunityError,
>)
    ensures
        r == spec_storage_refund(bytes_before, bytes_after, deposit),
{
    if bytes_after < bytes_before {
        return Err(CommunityError::StorageAccountingError);
    }
    let delta = bytes_after - bytes_before;
    proof {
        assert((delta as int) * (STORAGE_PRICE_PER_BYTE as int)
            < 0x100000000000000000000000000000000) by (nonlinear_arith)
            requires
                delta <= 0xffffffffffffffffu64,
        ;
    }
    let cost: u128 = (delta as u128) * STORAGE_PRICE_PER_BYTE;
    if deposit < cost {
        Err(CommunityError::StorageAccountingError)
    } else {
        Ok(deposit - cost)
    }
}

/// The index of the first dot in `s`, or `-1` when there is none.
pub open spec fn first_dot(s: Seq<u8>) -> int
    decreases s.len(),
{
    if s.len() == 0 {
        -1
    } else if s[0] == 46 {
        0
    } else {
        let r = first_dot(s.skip(1));
        if r < 0 {
            -1
        } else {
            r + 1
        }
    }
}

/// The parent of an account id, over its bytes: everything after the first
/// dot, or nothing for an id without one.
pub open spec fn spec_parent_bytes(s: Seq<u8>) -> Option<Seq<u8>> {
    if first_dot(s) < 0 {
        None
    } else {
        Some(s.skip(first_dot(s) + 1))
    }
}

/// Whether `caller` is the parent authority of the account `current`: the
/// id of `current` with its first dot-separated segment removed.
pub fn is_parent(caller: &str, current: &str) -> (r: bool)
    ensures
        r == (spec_parent_bytes(current.spec_bytes()) == Some(caller.spec_bytes())),
{
    let cb = current.as_bytes();
    let mut i: usize = 0;
    while i < cb.len()
        invariant
            i <= cb@.len(),
            cb@ == current.spec_bytes(),
            forall|j: int| 0 <= j < i ==> cb@[j] != 46u8,
        decreases cb@.len() - i,
    {
        if cb[i] == 46u8 {
            proof {
                lemma_first_dot_at(cb@, i as int);
            }
            let suffix = vstd::slice::slice_subrange(cb, i + 1, cb.len());
            let r = bytes_eq(suffix, caller.as_bytes());
            proof {
                assert(cb@.subrange(i as int + 1, cb@.len() as int) =~= cb@.skip(i as int + 1));
            }
            return r;
        }
        i = i + 1;
    }
    proof {
        lemma_first_dot_none(cb@);
    }
    false
}

/// Whether two byte strings are equal.
fn bytes_eq(a: &[u8], b: &[u8]) -> (r: bool)
    ensures
        r == (a@ == b@),
{
    if a.len() != b.len() {
        return false;
    }
    let mut i: usize = 0;
    while i < a.len()
        invariant
            i <= a@.len(),
            a@.len() == b@.len(),
            forall|j: int| 0 <= j < i ==> a@[j] == b@[j],
        decreases a@.len() - i,
    {
        if a[i] != b[i] {
            return false;
        }
        i = i + 1;
    }
    proof {
        assert(a@ =~= b@);
    }
    true
}

/// Where no byte before `i` is a dot and the byte at `i` is one, `i` is the
/// first dot.
proof fn lemma_first_dot_at(s: Seq<u8>, i: int)
    requires
        0 <= i < s.len(),
        s[i] == 46,
        forall|j: int| 0 <= j < i ==> s[j] != 46,
    ensures
        first_dot(s) == i,
    decreases i,
{
    if i > 0 {
        assert forall|j: int| 0 <= j < i - 1 implies s.skip(1)[j] != 46 by {
            assert(s.skip(1)[j] == s[j + 1]);
        }
        assert(s.skip(1)[i - 1] == s[i]);
        lemma_first_dot_at(s.skip(1), i - 1);
    }
}

/// A byte string without a dot has no first dot.
proof fn lemma_first_dot_none(s: Seq<u8>)
    requires
        forall|j: int| 0 <= j < s.len() ==> s[j] != 46,
    ensures
        first_dot(s) == -1,
    decreases s.len(),
{
    if s.len() > 0 {
        assert forall|j: int| 0 <= j < s.skip(1).len() implies s.skip(1)[j] != 46 by {
            assert(s.skip(1)[j] == s[j + 1]);
        }
        lemma_first_dot_none(s.skip(1));
    }
}

} // verus!
