//! A Redis-backed message queue for apalis, built on the Redis Simple
//! Message Queue protocol of `rsmq_async`.
//!
//! The library holds the queue's configuration, the per-message context,
//! and the decisions the backend takes around each exchange with Redis:
//! what a received message becomes, when a processed message is deleted,
//! how long a scheduled message is delayed, and in what order queued
//! messages are handed to Redis.
use vstd::prelude::*;

use std::marker::PhantomData;

use apalis_core::backend::codec::json::JsonCodec;
use rsmq_async::{Rsmq, RsmqError};

mod ack;
mod config;
mod context;
mod rsmq;
mod sink;

pub use crate::ack::{ack_request, delete_outcome, DeleteRequest};
pub use crate::config::{Config, DEFAULT_BUFFER_SIZE};
pub use crate::context::RedisMqContext;
pub use crate::sink::{
    delay_between, delay_from, delay_until, prepare_send, FlushStep, OutgoingMessage, RsMqSink,
    SendProgress, UtcInstant, NANOS_PER_SEC, UTC_MAX_TIMESTAMP, UTC_MIN_TIMESTAMP,
};

use crate::rsmq::{invalid_format, rsmq_invalid_format};

verus! {

/// The JSON codec of `apalis_core`, the queue's default codec.
#[verifier::external_type_specification]
#[verifier::external_body]
#[verifier::reject_recursive_types(Output)]
pub struct ExJsonCodec<Output>(JsonCodec<Output>);

/// What travels through Redis: the task's arguments with its context.
pub struct PrimitiveMessage<T> {
    /// The task's arguments.
    pub task: T,
    /// The task's context.
    pub context: RedisMqContext,
}

/// A message as Redis handed it over, with its payload run through the codec.
pub struct ReceivedMessage<A> {
    /// The message's id in its queue.
    pub id: String,
    /// How many times the message has been received.
    pub rc: u64,
    /// The decoded payload, or the codec's error message.
    pub decoded: Result<PrimitiveMessage<A>, String>,
}

/// A task handed to a worker.
pub struct Delivery<A> {
    /// The task's arguments.
    pub args: A,
    /// The task's context.
    pub context: RedisMqContext,
    /// The id of the message that carried the task.
    pub task_id: String,
    /// The task's attempt: how many times its message has been received.
    pub attempt: usize,
}

/// What one poll of the queue yields.
pub struct PollStep<A> {
    /// The item for the worker's stream.
    pub item: Result<Option<Delivery<A>>, RsmqError>,
    /// The new count of tasks that the last poll found, if it changes.
    pub prev_count: Option<usize>,
}

/// What one poll of the queue yields, from what receiving a message gave:
/// a decoded message becomes a task whose id is the message's and whose
/// attempt is the number of times it was received, and the count of tasks
/// found becomes 1; a message that fails to decode becomes an
/// `InvalidFormat` error; an empty queue yields nothing and the count
/// becomes 0; Redis's error is handed on. After an error the count stays.
pub fn receive_outcome<A>(received: Result<Option<ReceivedMessage<A>>, RsmqError>) -> (step: PollStep<A>)
    ensures
        match received {
            Ok(Some(m)) => match m.decoded {
                Ok(p) => {
                    &&& step.item == Ok::<Option<Delivery<A>>, RsmqError>(Some(Delivery {
                        args: p.task,
                        context: p.context,
                        task_id: m.id,
                        attempt: m.rc as usize,
                    }))
                    &&& step.prev_count == Some(1usize)
                },
                Err(msg) => {
                    &&& step.item == Err::<Option<Delivery<A>>, RsmqError>(rsmq_invalid_format(msg@))
                    &&& step.prev_count is None
                },
            },
            Ok(None) => step.item == Ok::<Option<Delivery<A>>, RsmqError>(None) && step.prev_count == Some(0usize),
            Err(e) => step.item == Err::<Option<Delivery<A>>, RsmqError>(e) && step.prev_count is None,
        },
{
    match received {
        Ok(Some(m)) => match m.decoded {
            Ok(p) => PollStep {
                item: Ok(Some(Delivery {
                    args: p.task,
                    context: p.context,
                    task_id: m.id,
                    attempt: m.rc as usize,
                })),
                prev_count: Some(1),
            },
            Err(msg) => PollStep { item: Err(invalid_format(msg)), prev_count: None },
        },
        Ok(None) => PollStep { item: Ok(None), prev_count: Some(0) },
        Err(e) => PollStep { item: Err(e), prev_count: None },
    }
}

/// Redis-backed message queue
pub struct RedisMq<T, C> {
    conn: Rsmq,
    config: Config,
    msg_type: PhantomData<T>,
    codec: PhantomData<C>,
}

impl<T> RedisMq<T, JsonCodec<Vec<u8>>> {
    /// Creates a new RedisMq instance
    pub fn new(conn: Rsmq, config: Config) -> (mq: RedisMq<T, JsonCodec<Vec<u8>>>)
        ensures
            mq.config()@ == config@,
            *mq.conn() == conn,
    {
        RedisMq { conn, config, msg_type: PhantomData, codec: PhantomData }
    }
}

impl<T, C> RedisMq<T, C> {
    /// The configuration of this queue.
    pub closed spec fn spec_config(&self) -> &Config {
        &self.config
    }

    /// Gets the configuration
    #[verifier::when_used_as_spec(spec_config)]
    pub fn config(&self) -> (c: &Config)
        ensures
            c == self.spec_config(),
    {
        &self.config
    }

    /// The connection to Redis.
    pub closed spec fn spec_conn(&self) -> &Rsmq {
        &self.conn
    }

    /// The connection to Redis.
    #[verifier::when_used_as_spec(spec_conn)]
    pub fn conn(&self) -> (c: &Rsmq)
        ensures
            c == self.spec_conn(),
    {
        &self.conn
    }
}

impl<T, C> Clone for RedisMq<T, C> {
    /// Another handle on the same queue: a clone of the connection and a
    /// copy of the configuration.
    fn clone(&self) -> (mq: Self)
        ensures
            mq.config()@ == self.config()@,
            *mq.conn() == *self.conn(),
    {
        RedisMq {
            conn: self.conn.clone(),
            config: self.config.clone(),
            msg_type: PhantomData,
            codec: PhantomData,
        }
    }
}

} // verus!
