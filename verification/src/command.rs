//! The backend command that each message stands for, as the list of its
//! arguments.

use vstd::prelude::*;
use vstd::utf8::encode_utf8;

verus! {

/// The bytes of a piece of text as a command argument: its UTF-8 encoding.
pub open spec fn text(chars: Seq<char>) -> Seq<u8> {
    encode_utf8(chars)
}

/// The decimal notation of a number in ASCII digits, without leading zeros.
pub open spec fn decimal(n: nat) -> Seq<u8>
    decreases n,
{
    if n < 10 {
        seq![(48 + n) as u8]
    } else {
        decimal(n / 10).push((48 + n % 10) as u8)
    }
}

/// The key under which the lock for `key` is kept: the key in the lock
/// namespace.
pub open spec fn lock_key(key: Seq<char>) -> Seq<char> {
    "lock::"@ + key
}

/// `GET key`
pub open spec fn get_args(key: Seq<char>) -> Seq<Seq<u8>> {
    seq![text("GET"@), text(key)]
}

/// `SET key value`, and with a time to live `SET key value EX ttl`: value and
/// expiry travel in the one command.
pub open spec fn set_args(key: Seq<char>, value: Seq<char>, ttl: Option<u32>) -> Seq<Seq<u8>> {
    match ttl {
        None => seq![text("SET"@), text(key), text(value)],
        Some(seconds) => seq![
            text("SET"@),
            text(key),
            text(value),
            text("EX"@),
            decimal(seconds as nat),
        ],
    }
}

/// `DEL key`
pub open spec fn delete_args(key: Seq<char>) -> Seq<Seq<u8>> {
    seq![text("DEL"@), text(key)]
}

/// `SET lock::key "" NX EX ttl`: an empty marker under the lock key, written
/// only if that key is absent, and always with an expiry.
pub open spec fn lock_args(key: Seq<char>, ttl: u32) -> Seq<Seq<u8>> {
    seq![
        text("SET"@),
        text(lock_key(key)),
        text(""@),
        text("NX"@),
        text("EX"@),
        decimal(ttl as nat),
    ]
}

} // verus!
