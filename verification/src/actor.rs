//! The actor's own state: the address it connects to, where it stands in the
//! connection lifecycle, and the decision each message handler takes.

use crate::backend::{command_args, open_client, opened};
use crate::command::{delete_args, get_args, lock_args, set_args};
use crate::error::{spec_forward, Error};
use crate::message::{Delete, Get, Lock, SetValue};
use redis::{Client, Cmd, RedisError};
use vstd::prelude::*;

verus! {

/// Where an actor stands between its creation and a usable connection.
#[derive(Debug, Clone, Copy, PartialEq, Eq, Structural)]
pub enum ConnectionState {
    /// Created, not yet activated.
    Uninitialized,
    /// A connect attempt is under way.
    Connecting,
    /// The connection is established; commands may be issued.
    Ready,
    /// The last connect attempt failed; only a restart leads on.
    Failed,
}

/// The address a builder holds until another is chosen.
pub open spec fn default_connection_info() -> Seq<char> {
    "redis://127.0.0.1/"@
}

/// What an actor is, to its contracts.
pub ghost struct ActorView {
    pub connection_info: Seq<char>,
    pub state: ConnectionState,
}

/// Cache backend actor.
pub struct RedisActor {
    connection_info: String,
    state: ConnectionState,
}

/// Collects what an actor is made from.
pub struct RedisActorBuilder {
    connection_info: String,
}

impl View for RedisActor {
    type V = ActorView;

    closed spec fn view(&self) -> ActorView {
        ActorView { connection_info: self.connection_info@, state: self.state }
    }
}

impl View for RedisActorBuilder {
    type V = Seq<char>;

    closed spec fn view(&self) -> Seq<char> {
        self.connection_info@
    }
}

impl Default for RedisActorBuilder {
    fn default() -> (builder: RedisActorBuilder)
        ensures
            builder@ == default_connection_info(),
    {
        RedisActorBuilder { connection_info: String::from_str("redis://127.0.0.1/") }
    }
}

impl RedisActorBuilder {
    /// An actor for the builder's address. It has not been activated: it
    /// holds no connection and none is being opened.
    pub fn build(&self) -> (r: Result<RedisActor, Error>)
        ensures
            r matches Ok(actor) && actor@ == (ActorView {
                connection_info: self@,
                state: ConnectionState::Uninitialized,
            }),
    {
        Ok(
            RedisActor {
                connection_info: self.connection_info.clone(),
                state: ConnectionState::Uninitialized,
            },
        )
    }
}

/// The handler hands out a command with exactly these arguments.
pub open spec fn issues(r: Result<Cmd, Error>, args: Seq<Seq<u8>>) -> bool {
    r matches Ok(cmd) && command_args(cmd) == args
}

/// The handler fails with the connection error and hands out no command.
pub open spec fn refuses(r: Result<Cmd, Error>) -> bool {
    r == Err::<Cmd, Error>(Error::Connection)
}

/// The state an actor is in once its address has been looked at: connecting
/// if a client could be made from it, failed if not.
pub open spec fn state_after_open<C>(opened: Result<C, RedisError>) -> ConnectionState {
    if opened is Ok {
        ConnectionState::Connecting
    } else {
        ConnectionState::Failed
    }
}

/// The state an actor is in once a connect attempt has ended.
pub open spec fn state_after_connect<H>(outcome: Result<H, RedisError>) -> ConnectionState {
    if outcome is Ok {
        ConnectionState::Ready
    } else {
        ConnectionState::Failed
    }
}

impl RedisActor {
    /// An actor for the default address, not yet activated.
    pub fn new() -> (r: Result<RedisActor, Error>)
        ensures
            r matches Ok(actor) && actor@ == (ActorView {
                connection_info: default_connection_info(),
                state: ConnectionState::Uninitialized,
            }),
    {
        Self::builder().build()
    }

    /// A builder holding the default address.
    pub fn builder() -> (builder: RedisActorBuilder)
        ensures
            builder@ == default_connection_info(),
    {
        RedisActorBuilder::default()
    }

    /// The actor as it is handed to its supervisor: for the given address,
    /// not yet activated.
    pub fn start(connection_info: String) -> (actor: RedisActor)
        ensures
            actor@ == (ActorView {
                connection_info: connection_info@,
                state: ConnectionState::Uninitialized,
            }),
    {
        RedisActor { connection_info, state: ConnectionState::Uninitialized }
    }

    /// The address this actor connects to.
    pub fn connection_info(&self) -> (info: &str)
        ensures
            info@ == self@.connection_info,
    {
        self.connection_info.as_str()
    }

    /// Where the actor stands in the connection lifecycle.
    pub fn state(&self) -> (state: ConnectionState)
        ensures
            state == self@.state,
    {
        self.state
    }

    /// Activation. One client is made, from the actor's own address; with it
    /// the caller opens the connection and reports back through
    /// [`RedisActor::connect_finished`]. An address that no client can be made
    /// from fails the actor at once, with the error that says why.
    pub fn started(&mut self) -> (r: Result<Client, Error>)
        ensures
            final(self)@ == (ActorView {
                state: state_after_open(opened(old(self)@.connection_info)),
                ..old(self)@
            }),
            r == spec_forward(opened(old(self)@.connection_info)),
    {
        let opened = open_client(self.connection_info.as_str());
        self.connect_begun(opened)
    }

    /// Takes up what came of making a client for the actor's address: with a
    /// client the actor is connecting, without one it has failed.
    pub fn connect_begun(&mut self, opened: Result<Client, RedisError>) -> (r: Result<
        Client,
        Error,
    >)
        ensures
            final(self)@ == (ActorView { state: state_after_open(opened), ..old(self)@ }),
            r == spec_forward(opened),
    {
        match opened {
            Ok(client) => {
                self.state = ConnectionState::Connecting;
                Ok(client)
            },
            Err(err) => {
                self.state = ConnectionState::Failed;
                Err(Error::from(err))
            },
        }
    }

    /// Takes up how the connect attempt ended. On success the actor is ready
    /// and the connection handle is given back for the caller to keep; on
    /// failure the actor has failed and the error is given back unchanged.
    pub fn connect_finished<H>(&mut self, outcome: Result<H, RedisError>) -> (r: Result<H, Error>)
        ensures
            final(self)@ == (ActorView { state: state_after_connect(outcome), ..old(self)@ }),
            r == spec_forward(outcome),
    {
        match outcome {
            Ok(handle) => {
                self.state = ConnectionState::Ready;
                Ok(handle)
            },
            Err(err) => {
                self.state = ConnectionState::Failed;
                Err(Error::from(err))
            },
        }
    }

    /// The supervisor restarts the actor: whatever connection it had is given
    /// up, and it connects anew.
    pub fn restarting(&mut self)
        ensures
            final(self)@ == (ActorView { state: ConnectionState::Connecting, ..old(self)@ }),
    {
        self.state = ConnectionState::Connecting;
    }

    /// Handles a [`Get`]: the read command to issue, or the connection error.
    pub fn handle_get(&self, msg: Get) -> (r: Result<Cmd, Error>)
        ensures
            self@.state is Ready ==> issues(r, get_args(msg.key@)),
            !(self@.state is Ready) ==> refuses(r),
    {
        match self.state {
            ConnectionState::Ready => Ok(msg.command()),
            _ => Err(Error::Connection),
        }
    }

    /// Handles a [`SetValue`]: the write command to issue, or the connection
    /// error.
    pub fn handle_set(&self, msg: SetValue) -> (r: Result<Cmd, Error>)
        ensures
            self@.state is Ready ==> issues(r, set_args(msg.key@, msg.value@, msg.ttl)),
            !(self@.state is Ready) ==> refuses(r),
    {
        match self.state {
            ConnectionState::Ready => Ok(msg.command()),
            _ => Err(Error::Connection),
        }
    }

    /// Handles a [`Delete`]: the delete command to issue, or the connection
    /// error.
    pub fn handle_delete(&self, msg: Delete) -> (r: Result<Cmd, Error>)
        ensures
            self@.state is Ready ==> issues(r, delete_args(msg.key@)),
            !(self@.state is Ready) ==> refuses(r),
    {
        match self.state {
            ConnectionState::Ready => Ok(msg.command()),
            _ => Err(Error::Connection),
        }
    }

    /// Handles a [`Lock`]: the conditional write to issue, or the connection
    /// error.
    pub fn handle_lock(&self, msg: Lock) -> (r: Result<Cmd, Error>)
        ensures
            self@.state is Ready ==> issues(r, lock_args(msg.key@, msg.ttl)),
            !(self@.state is Ready) ==> refuses(r),
    {
        match self.state {
            ConnectionState::Ready => Ok(msg.command()),
            _ => Err(Error::Connection),
        }
    }
}

} // verus!
