//! The producer of completion messages.

use vstd::prelude::*;

use crate::config::RabbitMqConfig;
use crate::error::{prefixed, AppError, AppErrorView};
use crate::model::script::TaskMessage;

verus! {

/// A message for a queue, as it is to be published.
#[derive(Debug, Clone)]
pub struct Publication {
    /// The exchange; the empty name stands for the default exchange.
    pub exchange: &'static str,
    pub routing_key: String,
    pub content_type: &'static str,
    pub delivery_mode: u8,
    pub message: TaskMessage,
}

/// The contents of a [`Publication`].
#[verifier::ext_equal]
pub struct PublicationView {
    pub exchange: Seq<char>,
    pub routing_key: Seq<char>,
    pub content_type: Seq<char>,
    pub delivery_mode: u8,
    pub message: TaskMessage,
}

impl View for Publication {
    type V = PublicationView;

    open spec fn view(&self) -> PublicationView {
        PublicationView {
            exchange: self.exchange@,
            routing_key: self.routing_key@,
            content_type: self.content_type@,
            delivery_mode: self.delivery_mode,
            message: self.message,
        }
    }
}

/// The delivery mode of messages that outlive a restart of the broker.
pub const PERSISTENT: u8 = 2;

/// The message that says that a task is complete: persistent JSON, straight to the queue.
pub open spec fn completion(queue: Seq<char>, task_id: i64) -> PublicationView {
    PublicationView {
        exchange: ""@,
        routing_key: queue,
        content_type: "application/json"@,
        delivery_mode: PERSISTENT,
        message: TaskMessage { task_id },
    }
}

/// The producer of completion messages for one queue.
#[derive(Debug, Clone)]
pub struct MqProducer {
    pub publish_queue: String,
}

impl MqProducer {
    /// A producer for the configured queue.
    pub fn new(config: &RabbitMqConfig) -> (r: Self)
        ensures
            r.publish_queue@ == config.publish_queue@,
    {
        MqProducer { publish_queue: config.publish_queue.clone() }
    }

    /// The message that says that a task is complete.
    pub fn publish_completion(&self, task_id: i64) -> (r: Publication)
        ensures
            r@ == completion(self.publish_queue@, task_id),
    {
        Publication {
            exchange: "",
            routing_key: self.publish_queue.clone(),
            content_type: "application/json",
            delivery_mode: PERSISTENT,
            message: TaskMessage { task_id },
        }
    }

    /// The error of a message that could not be written down, for this reason.
    pub fn serialization_failure(reason: &str) -> (r: AppError)
        ensures
            r@ == AppErrorView::Config("Failed to serialize message: "@ + reason@),
    {
        AppError::Config(prefixed("Failed to serialize message: ", reason))
    }
}

/// A completion message names its task, goes through the default exchange to the queue of its name,
/// and is JSON that outlives a restart of the broker.
pub proof fn completions_name_their_task(queue: Seq<char>, task_id: i64)
    ensures
        completion(queue, task_id).exchange == ""@,
        completion(queue, task_id).routing_key == queue,
        completion(queue, task_id).content_type == "application/json"@,
        completion(queue, task_id).delivery_mode == 2,
        completion(queue, task_id).message.task_id == task_id,
{
}

/// The contents of a message are its fields.
pub proof fn publication_contents(p: Publication)
    ensures
        p@.exchange == p.exchange@,
        p@.routing_key == p.routing_key@,
        p@.content_type == p.content_type@,
        p@.delivery_mode == p.delivery_mode,
        p@.message == p.message,
{
}

} // verus!
