use redis::{from_redis_value, Arg, Cmd, ErrorKind, FromRedisValue, RedisError, Value};
use redis_actor::{
    ConnectionState, Delete, DeleteStatus, Error, Get, Lock, LockStatus, RedisActor, SetValue,
};
use std::collections::HashMap;

/// A stand-in for the backend: it keeps entries in memory, counts seconds on a
/// clock that the test moves, and answers the four commands as the store does.
struct Backend {
    now: u64,
    calls: usize,
    entries: HashMap<Vec<u8>, (Vec<u8>, Option<u64>)>,
}

fn args(cmd: &Cmd) -> Vec<Vec<u8>> {
    cmd.args_iter()
        .map(|arg| match arg {
            Arg::Simple(bytes) => bytes.to_vec(),
            _ => panic!("a command of this library holds plain arguments only"),
        })
        .collect()
}

fn invalid(what: &'static str) -> RedisError {
    RedisError::from((ErrorKind::Client, what))
}

impl Backend {
    fn new() -> Backend {
        Backend { now: 0, calls: 0, entries: HashMap::new() }
    }

    fn advance(&mut self, seconds: u64) {
        self.now += seconds;
    }

    fn expire(&mut self) {
        let now = self.now;
        self.entries.retain(|_, entry| match entry.1 {
            Some(deadline) => now < deadline,
            None => true,
        });
    }

    fn execute(&mut self, cmd: &Cmd) -> Result<Value, RedisError> {
        self.calls += 1;
        self.expire();
        let args = args(cmd);
        match args[0].as_slice() {
            b"GET" if args.len() == 2 => Ok(match self.entries.get(&args[1]) {
                Some(entry) => Value::BulkString(entry.0.clone()),
                None => Value::Nil,
            }),
            b"DEL" if args.len() == 2 => Ok(match self.entries.remove(&args[1]) {
                Some(_) => Value::Int(1),
                None => Value::Int(0),
            }),
            b"SET" if args.len() >= 3 => self.write(&args),
            _ => Err(invalid("unknown command")),
        }
    }

    fn write(&mut self, args: &[Vec<u8>]) -> Result<Value, RedisError> {
        let mut only_if_absent = false;
        let mut deadline = None;
        let mut at = 3;
        while at < args.len() {
            match args[at].as_slice() {
                b"NX" => only_if_absent = true,
                b"EX" if at + 1 < args.len() => {
                    at += 1;
                    let digits = std::str::from_utf8(&args[at]).map_err(|_| invalid("no number"))?;
                    let seconds: u64 = digits.parse().map_err(|_| invalid("no number"))?;
                    if seconds == 0 {
                        return Err(invalid("invalid expire time"));
                    }
                    deadline = Some(self.now + seconds);
                }
                _ => return Err(invalid("syntax error")),
            }
            at += 1;
        }
        if only_if_absent && self.entries.contains_key(&args[1]) {
            return Ok(Value::Nil);
        }
        self.entries.insert(args[1].clone(), (args[2].clone(), deadline));
        Ok(Value::Okay)
    }
}

fn query<T: FromRedisValue>(backend: &mut Backend, cmd: &Cmd) -> Result<T, RedisError> {
    let value = backend.execute(cmd)?;
    from_redis_value(value).map_err(RedisError::from)
}

fn get(actor: &RedisActor, backend: &mut Backend, key: &str) -> Result<Option<String>, Error> {
    match actor.handle_get(Get { key: key.to_string() }) {
        Ok(cmd) => Get::reply(query(backend, &cmd)),
        Err(err) => Err(err),
    }
}

fn set(
    actor: &RedisActor,
    backend: &mut Backend,
    key: &str,
    value: &str,
    ttl: Option<u32>,
) -> Result<String, Error> {
    match actor.handle_set(SetValue { key: key.to_string(), value: value.to_string(), ttl }) {
        Ok(cmd) => SetValue::reply(query(backend, &cmd)),
        Err(err) => Err(err),
    }
}

fn delete(actor: &RedisActor, backend: &mut Backend, key: &str) -> Result<DeleteStatus, Error> {
    match actor.handle_delete(Delete { key: key.to_string() }) {
        Ok(cmd) => Delete::reply(query(backend, &cmd)),
        Err(err) => Err(err),
    }
}

fn lock(
    actor: &RedisActor,
    backend: &mut Backend,
    key: &str,
    ttl: u32,
) -> Result<LockStatus, Error> {
    match actor.handle_lock(Lock { key: key.to_string(), ttl }) {
        Ok(cmd) => Lock::reply(query(backend, &cmd)),
        Err(err) => Err(err),
    }
}

fn ready_actor() -> RedisActor {
    let mut actor = RedisActor::new().expect("an actor is always built");
    assert!(actor.started().is_ok());
    assert!(actor.connect_finished(Ok(())).is_ok());
    assert_eq!(actor.state(), ConnectionState::Ready);
    actor
}

#[test]
fn get_of_a_key_never_written_is_none() {
    let actor = ready_actor();
    let mut backend = Backend::new();
    assert_eq!(get(&actor, &mut backend, "nobody"), Ok(None));
    assert_eq!(get(&actor, &mut backend, ""), Ok(None));
    assert_eq!(set(&actor, &mut backend, "somebody", "v", None), Ok("OK".to_string()));
    assert_eq!(get(&actor, &mut backend, "nobody"), Ok(None));
}

#[test]
fn set_then_get_returns_the_value() {
    let actor = ready_actor();
    let mut backend = Backend::new();
    assert_eq!(set(&actor, &mut backend, "k", "v", None), Ok("OK".to_string()));
    assert_eq!(get(&actor, &mut backend, "k"), Ok(Some("v".to_string())));
    backend.advance(1_000_000);
    assert_eq!(get(&actor, &mut backend, "k"), Ok(Some("v".to_string())));
}

#[test]
fn set_overwrites_what_was_there() {
    let actor = ready_actor();
    let mut backend = Backend::new();
    assert_eq!(set(&actor, &mut backend, "k", "old", None), Ok("OK".to_string()));
    assert_eq!(set(&actor, &mut backend, "k", "new", None), Ok("OK".to_string()));
    assert_eq!(get(&actor, &mut backend, "k"), Ok(Some("new".to_string())));
}

#[test]
fn set_with_ttl_is_readable_until_it_expires() {
    let actor = ready_actor();
    let mut backend = Backend::new();
    assert_eq!(set(&actor, &mut backend, "k", "v", Some(10)), Ok("OK".to_string()));
    assert_eq!(get(&actor, &mut backend, "k"), Ok(Some("v".to_string())));
    backend.advance(9);
    assert_eq!(get(&actor, &mut backend, "k"), Ok(Some("v".to_string())));
    backend.advance(1);
    assert_eq!(get(&actor, &mut backend, "k"), Ok(None));
}

#[test]
fn delete_of_an_existing_key_removes_it() {
    let actor = ready_actor();
    let mut backend = Backend::new();
    assert_eq!(set(&actor, &mut backend, "k", "v", None), Ok("OK".to_string()));
    assert_eq!(delete(&actor, &mut backend, "k"), Ok(DeleteStatus::Deleted(1)));
    assert_eq!(get(&actor, &mut backend, "k"), Ok(None));
}

#[test]
fn delete_of_an_absent_key_is_missing() {
    let actor = ready_actor();
    let mut backend = Backend::new();
    assert_eq!(delete(&actor, &mut backend, "k"), Ok(DeleteStatus::Missing));
    assert_eq!(set(&actor, &mut backend, "k", "v", None), Ok("OK".to_string()));
    assert_eq!(delete(&actor, &mut backend, "k"), Ok(DeleteStatus::Deleted(1)));
    assert_eq!(delete(&actor, &mut backend, "k"), Ok(DeleteStatus::Missing));
}

#[test]
fn lock_is_acquired_once_until_it_expires() {
    let actor = ready_actor();
    let mut backend = Backend::new();
    assert_eq!(lock(&actor, &mut backend, "job", 30), Ok(LockStatus::Acquired));
    assert_eq!(lock(&actor, &mut backend, "job", 30), Ok(LockStatus::Locked));
    backend.advance(29);
    assert_eq!(lock(&actor, &mut backend, "job", 30), Ok(LockStatus::Locked));
    backend.advance(1);
    assert_eq!(lock(&actor, &mut backend, "job", 30), Ok(LockStatus::Acquired));
    assert_eq!(lock(&actor, &mut backend, "job", 30), Ok(LockStatus::Locked));
}

#[test]
fn a_refused_lock_does_not_extend_the_holders_time() {
    let actor = ready_actor();
    let mut backend = Backend::new();
    assert_eq!(lock(&actor, &mut backend, "job", 10), Ok(LockStatus::Acquired));
    backend.advance(5);
    assert_eq!(lock(&actor, &mut backend, "job", 100), Ok(LockStatus::Locked));
    backend.advance(5);
    assert_eq!(lock(&actor, &mut backend, "job", 10), Ok(LockStatus::Acquired));
}

#[test]
fn locks_live_in_their_own_namespace() {
    let actor = ready_actor();
    let mut backend = Backend::new();
    assert_eq!(set(&actor, &mut backend, "job", "payload", None), Ok("OK".to_string()));
    assert_eq!(lock(&actor, &mut backend, "job", 30), Ok(LockStatus::Acquired));
    assert_eq!(get(&actor, &mut backend, "job"), Ok(Some("payload".to_string())));
    assert_eq!(get(&actor, &mut backend, "lock::job"), Ok(Some(String::new())));
    assert_eq!(delete(&actor, &mut backend, "job"), Ok(DeleteStatus::Deleted(1)));
    assert_eq!(lock(&actor, &mut backend, "job", 30), Ok(LockStatus::Locked));
}

#[test]
fn without_a_connection_nothing_reaches_the_backend() {
    let mut backend = Backend::new();
    let mut actor = RedisActor::new().expect("an actor is always built");
    for round in 0..3 {
        assert_ne!(actor.state(), ConnectionState::Ready);
        assert_eq!(get(&actor, &mut backend, "k"), Err(Error::Connection));
        assert_eq!(set(&actor, &mut backend, "k", "v", None), Err(Error::Connection));
        assert_eq!(set(&actor, &mut backend, "k", "v", Some(1)), Err(Error::Connection));
        assert_eq!(delete(&actor, &mut backend, "k"), Err(Error::Connection));
        assert_eq!(lock(&actor, &mut backend, "k", 1), Err(Error::Connection));
        assert_eq!(backend.calls, 0);
        if round == 0 {
            assert!(actor.started().is_ok());
        } else {
            assert!(actor.connect_finished::<()>(Err(invalid("unreachable host"))).is_err());
        }
    }
    assert!(backend.entries.is_empty());
}

#[test]
fn sets_to_distinct_keys_do_not_interfere() {
    let actor = ready_actor();
    for first_wins in [true, false] {
        let mut backend = Backend::new();
        let a = actor
            .handle_set(SetValue { key: "a".to_string(), value: "1".to_string(), ttl: None })
            .expect("ready");
        let b = actor
            .handle_set(SetValue { key: "b".to_string(), value: "2".to_string(), ttl: Some(5) })
            .expect("ready");
        let order = if first_wins { [&a, &b] } else { [&b, &a] };
        for cmd in order {
            assert_eq!(SetValue::reply(query(&mut backend, cmd)), Ok("OK".to_string()));
        }
        assert_eq!(get(&actor, &mut backend, "a"), Ok(Some("1".to_string())));
        assert_eq!(get(&actor, &mut backend, "b"), Ok(Some("2".to_string())));
    }
}

#[test]
fn two_callers_of_one_lock_get_one_acquired_and_one_locked() {
    let actor = ready_actor();
    for first_wins in [true, false] {
        let mut backend = Backend::new();
        let one = actor.handle_lock(Lock { key: "job".to_string(), ttl: 30 }).expect("ready");
        let two = actor.handle_lock(Lock { key: "job".to_string(), ttl: 30 }).expect("ready");
        assert_eq!(args(&one), args(&two));
        let (early, late) = if first_wins { (&one, &two) } else { (&two, &one) };
        let early_status = Lock::reply(query(&mut backend, early));
        let late_status = Lock::reply(query(&mut backend, late));
        assert_eq!(early_status, Ok(LockStatus::Acquired));
        assert_eq!(late_status, Ok(LockStatus::Locked));
    }
}

#[test]
fn a_backend_error_reaches_the_sender_unchanged() {
    let actor = ready_actor();
    let mut backend = Backend::new();
    assert_eq!(
        set(&actor, &mut backend, "k", "v", Some(0)),
        Err(Error::Redis(invalid("invalid expire time")))
    );
    assert_eq!(
        lock(&actor, &mut backend, "k", 0),
        Err(Error::Redis(invalid("invalid expire time")))
    );
    assert_eq!(get(&actor, &mut backend, "k"), Ok(None));
    assert_eq!(backend.calls, 3);
}

#[test]
fn a_reply_of_the_wrong_shape_is_a_backend_error() {
    let wrong: Result<u32, RedisError> =
        from_redis_value(Value::BulkString(b"many".to_vec())).map_err(RedisError::from);
    assert!(matches!(Delete::reply(wrong), Err(Error::Redis(_))));
}
