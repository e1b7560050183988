//! Per-policy mutual exclusion for mutating requests: the lock's key, when
//! locking is on, and how a request that cannot lock is answered. The
//! lock itself lives in Redis and is taken and released at the edge.

use vstd::prelude::*;
use crate::ids::{uuid_parsed, uuid_string, uuid_text, PolicyId};
use crate::text::{chars_of, trim_chars, trim_seq};

verus! {

/// How long a lock is held before Redis lets it lapse, in seconds.
pub const DEFAULT_LOCK_TTL_SECS: u64 = 30;

/// Seconds a refused client is told to wait before retrying.
pub const LOCKED_RETRY_AFTER_SECS: u64 = 5;

#[derive(Debug, PartialEq, Eq)]
pub enum PolicyLockError {
    AlreadyLocked,
    RedisError(String),
    Disabled,
}

impl PolicyLockError {
    /// The error's text.
    pub fn message(&self) -> (r: String)
        ensures
            r@ == (match *self {
                PolicyLockError::AlreadyLocked => "policy locked"@,
                PolicyLockError::RedisError(m) => "redis error: "@ + m@,
                PolicyLockError::Disabled => "policy locking disabled"@,
            }),
    {
        match self {
            PolicyLockError::AlreadyLocked => String::from_str("policy locked"),
            PolicyLockError::RedisError(m) => {
                let mut s = String::from_str("redis error: ");
                s.append(m.as_str());
                s
            },
            PolicyLockError::Disabled => String::from_str("policy locking disabled"),
        }
    }
}

/// The Redis key of a policy's lock: `policy_lock:{policy id}`.
pub fn lock_key(policy_id: PolicyId) -> (r: String)
    ensures
        r@ == "policy_lock:"@ + uuid_text(policy_id.0),
{
    let mut s = String::from_str("policy_lock:");
    let id = uuid_string(policy_id.0);
    s.append(id.as_str());
    s
}

/// Locking is on when a Redis URL other than whitespace is configured.
pub fn locking_enabled(redis_url: &str) -> (r: bool)
    ensures
        r == (trim_seq(redis_url@).len() > 0),
{
    trim_chars(&chars_of(redis_url)).len() > 0
}

/// How a request that could not take its policy's lock is answered.
#[derive(Debug, PartialEq, Eq)]
pub struct LockRejection {
    pub status: u16,
    pub error: String,
    pub retry_after_secs: Option<u64>,
}

/// A held lock is answered 423 Locked with a retry hint; any other failure
/// 500 with the error's text.
pub fn lock_rejection(err: &PolicyLockError) -> (r: LockRejection)
    ensures
        *err == PolicyLockError::AlreadyLocked ==> r.status == 423 && r.error@ == "policy locked"@
            && r.retry_after_secs == Some(LOCKED_RETRY_AFTER_SECS),
        *err != PolicyLockError::AlreadyLocked ==> r.status == 500 && r.retry_after_secs is None
            && r.error@ == (match *err {
                PolicyLockError::RedisError(m) => "redis error: "@ + m@,
                _ => "policy locking disabled"@,
            }),
{
    match err {
        PolicyLockError::AlreadyLocked => LockRejection {
            status: 423,
            error: String::from_str("policy locked"),
            retry_after_secs: Some(LOCKED_RETRY_AFTER_SECS),
        },
        _ => LockRejection { status: 500, error: err.message(), retry_after_secs: None },
    }
}

/// The policy a locked request is about, from its body's `policy_id`
/// string: 400 `missing policy_id` without one, 400 `invalid policy_id`
/// when it is not a UUID.
pub fn policy_id_from_field(field: Option<&str>) -> (r: Result<PolicyId, LockRejection>)
    ensures
        field is None ==> (r matches Err(e) && e.status == 400 && e.error@ == "missing policy_id"@
            && e.retry_after_secs is None),
        field matches Some(f) ==> (match uuid_parsed(f@) {
            Some(u) => r == Ok::<PolicyId, LockRejection>(PolicyId(u)),
            None => r matches Err(e) && e.status == 400 && e.error@ == "invalid policy_id"@
                && e.retry_after_secs is None,
        }),
{
    match field {
        None => Err(
            LockRejection {
                status: 400,
                error: String::from_str("missing policy_id"),
                retry_after_secs: None,
            },
        ),
        Some(f) => match PolicyId::parse(f) {
            Some(p) => Ok(p),
            None => Err(
                LockRejection {
                    status: 400,
                    error: String::from_str("invalid policy_id"),
                    retry_after_secs: None,
                },
            ),
        },
    }
}

} // verus!
