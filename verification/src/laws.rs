//! What holds of the protocol as a whole, beyond the contract of any one
//! function.

use crate::command::{decimal, delete_args, get_args, lock_args, lock_key, set_args, text};
use crate::message::{DeleteStatus, LockStatus};
use vstd::prelude::*;
use vstd::utf8::encode_utf8_decode_utf8;

verus! {

/// The number that a run of ASCII digits denotes.
pub open spec fn decimal_value(digits: Seq<u8>) -> nat
    decreases digits.len(),
{
    if digits.len() == 0 {
        0
    } else {
        (decimal_value(digits.drop_last()) * 10 + (digits.last() - 48)) as nat
    }
}

/// A time to live arrives as the number that was sent: its decimal notation
/// is made of digits only, starts with a zero only for zero itself, and
/// denotes the number.
pub proof fn lemma_decimal_reads_back(n: nat)
    ensures
        decimal(n).len() >= 1,
        forall|i: int| 0 <= i < decimal(n).len() ==> 48 <= #[trigger] decimal(n)[i] <= 57,
        decimal(n)[0] == 48 <==> n == 0,
        decimal_value(decimal(n)) == n,
    decreases n,
{
    if n < 10 {
        assert(decimal(n).drop_last() =~= Seq::<u8>::empty());
        assert(decimal_value(Seq::<u8>::empty()) == 0);
    } else {
        lemma_decimal_reads_back(n / 10);
        assert(decimal(n).drop_last() =~= decimal(n / 10));
    }
}

/// A text argument stands for one text only.
pub proof fn lemma_text_reads_back(a: Seq<char>, b: Seq<char>)
    ensures
        text(a) == text(b) <==> a == b,
{
    encode_utf8_decode_utf8(a);
    encode_utf8_decode_utf8(b);
}

/// The lock for a key is kept under a key of its own, and two keys never
/// share a lock.
pub proof fn lemma_lock_key_reads_back(a: Seq<char>, b: Seq<char>)
    ensures
        lock_key(a) == lock_key(b) <==> a == b,
{
    let prefix = "lock::"@;
    assert(lock_key(a).subrange(prefix.len() as int, lock_key(a).len() as int) =~= a);
    assert(lock_key(b).subrange(prefix.len() as int, lock_key(b).len() as int) =~= b);
}

/// A value is written, read and removed under the same key argument, the
/// text of the message's key: what one message stored is what another with
/// that key asks for.
pub proof fn lemma_one_key_one_entry(key: Seq<char>, value: Seq<char>, ttl: Option<u32>)
    ensures
        set_args(key, value, ttl)[1] == text(key),
        set_args(key, value, ttl)[2] == text(value),
        get_args(key)[1] == text(key),
        delete_args(key)[1] == text(key),
{
}

/// Messages for different keys name different entries of the backend, and
/// lock attempts on different keys name different locks: neither can touch
/// what the other wrote.
pub proof fn lemma_distinct_keys_distinct_entries(
    a: Seq<char>,
    b: Seq<char>,
    value: Seq<char>,
    ttl: Option<u32>,
    seconds: u32,
)
    requires
        a != b,
    ensures
        set_args(a, value, ttl)[1] != set_args(b, value, ttl)[1],
        get_args(a)[1] != get_args(b)[1],
        delete_args(a)[1] != delete_args(b)[1],
        lock_args(a, seconds)[1] != lock_args(b, seconds)[1],
{
    lemma_text_reads_back(a, b);
    lemma_lock_key_reads_back(a, b);
    lemma_text_reads_back(lock_key(a), lock_key(b));
}

/// A write with a time to live is one command: key, value and expiry reach
/// the backend together, so the key never exists without its expiry.
pub proof fn lemma_expiry_travels_with_value(key: Seq<char>, value: Seq<char>, seconds: u32)
    ensures
        set_args(key, value, Some(seconds)) == set_args(key, value, None).push(text("EX"@)).push(
            decimal(seconds as nat),
        ),
{
    assert(set_args(key, value, Some(seconds)) =~= set_args(key, value, None).push(
        text("EX"@),
    ).push(decimal(seconds as nat)));
}

/// Two attempts on the lock of one key are the same conditional write on the
/// same lock key. If the backend lets exactly one of them through, exactly
/// one caller is told `Acquired` and the other `Locked`.
pub proof fn lemma_one_lock_one_holder(
    key: Seq<char>,
    ttl: u32,
    first: Option<String>,
    second: Option<String>,
)
    requires
        (first is Some) != (second is Some),
    ensures
        lock_args(key, ttl)[1] == text(lock_key(key)),
        (LockStatus::of_reply(first) is Acquired) != (LockStatus::of_reply(second) is Acquired),
        (LockStatus::of_reply(first) is Locked) != (LockStatus::of_reply(second) is Locked),
{
}

/// A delete is reported as `Deleted` only with the number of keys removed,
/// which is then at least one, and as `Missing` exactly when none was.
pub proof fn lemma_deleted_counts_at_least_one(count: u32)
    ensures
        DeleteStatus::of_count(count) matches DeleteStatus::Deleted(n) ==> n == count && n >= 1,
        DeleteStatus::of_count(count) is Missing <==> count == 0,
{
}

} // verus!
