//! Everything this library takes from the `redis` crate on trust: the three
//! types it carries, what a command holds, what comes of an address, and the
//! calls that make a client and assemble a command. Nothing in this file is proved; each contract says
//! what the crate's source shows of the call.

use crate::command::{decimal, text};
use redis::{Client, Cmd, RedisError};
use vstd::prelude::*;

verus! {

/// `redis::Cmd`, a command under construction. Its arguments are reached
/// through [`command_args`] only.
#[verifier::external_type_specification]
#[verifier::external_body]
pub struct ExCmd(redis::Cmd);

/// `redis::Client`, the parsed address that a connection is opened from.
/// Carried through without being inspected.
#[verifier::external_type_specification]
#[verifier::external_body]
pub struct ExClient(redis::Client);

/// `redis::RedisError`, carried through without being inspected.
#[verifier::external_type_specification]
#[verifier::external_body]
pub struct ExRedisError(redis::RedisError);

/// The arguments a command holds, in the order they were added and as the
/// bytes that go on the wire: what `Cmd::args_iter` yields, the command's
/// name first.
pub uninterp spec fn command_args(cmd: Cmd) -> Seq<Seq<u8>>;

/// Calls `redis::cmd`, which gives a command whose only argument is its name.
#[verifier::external_body]
pub(crate) fn named(name: &str) -> (cmd: Cmd)
    ensures
        command_args(cmd) == seq![text(name@)],
{
    redis::cmd(name)
}

/// Calls `Cmd::arg` with a string slice: the command gains one argument, the
/// UTF-8 bytes of the text, behind those it had.
#[verifier::external_body]
pub(crate) fn push_text(cmd: &mut Cmd, arg: &str)
    ensures
        command_args(*final(cmd)) == command_args(*old(cmd)).push(text(arg@)),
{
    cmd.arg(arg);
}

/// Calls `Cmd::arg` with a `u32`: the command gains one argument, the number
/// in decimal, behind those it had.
#[verifier::external_body]
pub(crate) fn push_number(cmd: &mut Cmd, n: u32)
    ensures
        command_args(*final(cmd)) == command_args(*old(cmd)).push(decimal(n as nat)),
{
    cmd.arg(n);
}

/// What `Client::open` makes of an address: the client for it, or the error
/// that says why there is none. The call parses the address and reads nothing
/// else, so one address always gives one result. Addresses of socket paths are
/// taken only where the platform has such sockets; the name stands for the
/// platform that the library is built for.
pub uninterp spec fn opened(address: Seq<char>) -> Result<Client, RedisError>;

/// Calls `Client::open`, which parses the address and connects to nothing:
/// the result is what [`opened`] names for this address.
#[verifier::external_body]
pub(crate) fn open_client(address: &str) -> (r: Result<Client, RedisError>)
    ensures
        r == opened(address@),
{
    Client::open(address)
}

} // verus!
