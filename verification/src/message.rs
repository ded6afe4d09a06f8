//! The four messages the actor accepts, the command each one becomes and the
//! result each one is answered with.

use crate::backend::{command_args, named, push_number, push_text};
use crate::command::{delete_args, get_args, lock_args, lock_key, set_args};
use crate::error::{forward, spec_forward, Error};
use redis::{Cmd, RedisError};
use vstd::prelude::*;

verus! {

/// Asks for the value stored under a key.
#[derive(Debug)]
pub struct Get {
    pub key: String,
}

/// Stores a value under a key, with an optional time to live in seconds.
#[derive(Debug, Clone)]
pub struct SetValue {
    pub key: String,
    pub value: String,
    pub ttl: Option<u32>,
}

/// Removes a key.
#[derive(Debug)]
pub struct Delete {
    pub key: String,
}

/// Tries to take the lock named by a key for `ttl` seconds.
#[derive(Debug, Clone)]
pub struct Lock {
    pub key: String,
    pub ttl: u32,
}

/// Outcome of a delete.
#[derive(Debug, PartialEq)]
pub enum DeleteStatus {
    /// That many keys were removed; the count is never zero.
    Deleted(u32),
    /// Nothing was stored under the key.
    Missing,
}

/// Outcome of a lock attempt.
#[derive(Debug, PartialEq)]
pub enum LockStatus {
    /// The lock was free and is now held.
    Acquired,
    /// Somebody else holds the lock.
    Locked,
}

impl DeleteStatus {
    /// The status that a count of removed keys stands for.
    pub open spec fn of_count(count: u32) -> DeleteStatus {
        if count > 0 {
            DeleteStatus::Deleted(count)
        } else {
            DeleteStatus::Missing
        }
    }

    /// Reads the backend's count of removed keys.
    pub fn from_count(count: u32) -> (status: DeleteStatus)
        ensures
            status == Self::of_count(count),
    {
        if count > 0 {
            DeleteStatus::Deleted(count)
        } else {
            DeleteStatus::Missing
        }
    }
}

impl LockStatus {
    /// The status that the reply to the conditional write stands for: any
    /// confirmation means the write went through, none means the key existed.
    pub open spec fn of_reply(reply: Option<String>) -> LockStatus {
        if reply is Some {
            LockStatus::Acquired
        } else {
            LockStatus::Locked
        }
    }

    /// Reads the backend's reply to the conditional write.
    pub fn from_reply(reply: Option<String>) -> (status: LockStatus)
        ensures
            status == Self::of_reply(reply),
    {
        if reply.is_some() {
            LockStatus::Acquired
        } else {
            LockStatus::Locked
        }
    }
}

impl Get {
    /// The command that reads the key.
    pub fn command(&self) -> (cmd: Cmd)
        ensures
            command_args(cmd) == get_args(self.key@),
    {
        let mut cmd = named("GET");
        push_text(&mut cmd, self.key.as_str());
        cmd
    }

    /// The answer to the sender, given how the backend call ended: the value
    /// or its absence as the backend reported it, or the backend's error.
    pub fn reply(outcome: Result<Option<String>, RedisError>) -> (r: Result<Option<String>, Error>)
        ensures
            r == spec_forward(outcome),
    {
        forward(outcome)
    }
}

impl SetValue {
    /// The command that writes the value, with the expiry in the same command
    /// when a time to live is given.
    pub fn command(&self) -> (cmd: Cmd)
        ensures
            command_args(cmd) == set_args(self.key@, self.value@, self.ttl),
    {
        let mut cmd = named("SET");
        push_text(&mut cmd, self.key.as_str());
        push_text(&mut cmd, self.value.as_str());
        if let Some(ttl) = self.ttl {
            push_text(&mut cmd, "EX");
            push_number(&mut cmd, ttl);
        }
        cmd
    }

    /// The answer to the sender, given how the backend call ended: the
    /// backend's confirmation, or its error.
    pub fn reply(outcome: Result<String, RedisError>) -> (r: Result<String, Error>)
        ensures
            r == spec_forward(outcome),
    {
        forward(outcome)
    }
}

impl Delete {
    /// The command that removes the key.
    pub fn command(&self) -> (cmd: Cmd)
        ensures
            command_args(cmd) == delete_args(self.key@),
    {
        let mut cmd = named("DEL");
        push_text(&mut cmd, self.key.as_str());
        cmd
    }

    /// What [`Delete::reply`] returns.
    pub open spec fn spec_reply(outcome: Result<u32, RedisError>) -> Result<DeleteStatus, Error> {
        match outcome {
            Ok(count) => Ok(DeleteStatus::of_count(count)),
            Err(err) => Err(Error::Redis(err)),
        }
    }

    /// The answer to the sender, given how the backend call ended: the status
    /// for the count of removed keys, or the backend's error.
    pub fn reply(outcome: Result<u32, RedisError>) -> (r: Result<DeleteStatus, Error>)
        ensures
            r == Self::spec_reply(outcome),
    {
        match outcome {
            Ok(count) => Ok(DeleteStatus::from_count(count)),
            Err(err) => Err(Error::from(err)),
        }
    }
}

impl Lock {
    /// The key under which this lock is kept.
    pub fn lock_key(&self) -> (key: String)
        ensures
            key@ == lock_key(self.key@),
    {
        let mut key = String::from_str("lock::");
        key.append(self.key.as_str());
        key
    }

    /// The command that takes the lock if nobody holds it.
    pub fn command(&self) -> (cmd: Cmd)
        ensures
            command_args(cmd) == lock_args(self.key@, self.ttl),
    {
        let key = self.lock_key();
        let mut cmd = named("SET");
        push_text(&mut cmd, key.as_str());
        push_text(&mut cmd, "");
        push_text(&mut cmd, "NX");
        push_text(&mut cmd, "EX");
        push_number(&mut cmd, self.ttl);
        cmd
    }

    /// What [`Lock::reply`] returns.
    pub open spec fn spec_reply(outcome: Result<Option<String>, RedisError>) -> Result<
        LockStatus,
        Error,
    > {
        match outcome {
            Ok(reply) => Ok(LockStatus::of_reply(reply)),
            Err(err) => Err(Error::Redis(err)),
        }
    }

    /// The answer to the sender, given how the backend call ended: whether the
    /// conditional write went through, or the backend's error.
    pub fn reply(outcome: Result<Option<String>, RedisError>) -> (r: Result<LockStatus, Error>)
        ensures
            r == Self::spec_reply(outcome),
    {
        match outcome {
            Ok(reply) => Ok(LockStatus::from_reply(reply)),
            Err(err) => Err(Error::from(err)),
        }
    }
}

} // verus!
