//! The job queue that the server shares with the worker, and what the server does with
//! each event on a client's websocket.

use vstd::prelude::*;
use std::collections::VecDeque;
use crate::data_types::{ClientMessage, Job, JobResult, JobStatus, ServerMessage};
use crate::datetime::Duration;

verus! {

/// The submitted jobs, oldest first. The oldest is the one being worked on; it leaves the
/// queue when it is done.
pub struct JobQueue {
    pub jobs: VecDeque<Job>,
}

/// The job `job` finished after `runtime` with `result`.
pub open spec fn finished(job: Job, runtime: Duration, result: JobResult) -> Job {
    Job { status: JobStatus::Done { runtime, result }, ..job }
}

impl JobQueue {
    /// An empty queue.
    pub fn new() -> (r: Self)
        ensures
            r.jobs@ == Seq::<Job>::empty(),
    {
        JobQueue { jobs: VecDeque::new() }
    }

    /// Whether no job is queued.
    pub fn is_empty(&self) -> (r: bool)
        ensures
            r == (self.jobs@.len() == 0),
    {
        self.jobs.len() == 0
    }

    /// Queues a job behind the others.
    pub fn push_job(&mut self, job: Job)
        ensures
            final(self).jobs@ == old(self).jobs@.push(job),
    {
        self.jobs.push_back(job);
    }

    /// The job being worked on: the oldest one.
    pub fn current(&self) -> (r: Option<&Job>)
        ensures
            match r {
                Some(j) => self.jobs@.len() > 0 && *j == self.jobs@[0],
                None => self.jobs@.len() == 0,
            },
    {
        if self.jobs.len() == 0 {
            None
        } else {
            Some(&self.jobs[0])
        }
    }

    /// Takes the job being worked on out of the queue, finished after `runtime` with
    /// `result`; nothing where the queue is empty.
    pub fn complete_current(&mut self, runtime: Duration, result: JobResult) -> (r: Option<Job>)
        ensures
            old(self).jobs@.len() == 0 ==> r is None && final(self).jobs@ == old(self).jobs@,
            old(self).jobs@.len() > 0 ==> r == Some(finished(old(self).jobs@[0], runtime, result))
                && final(self).jobs@ == old(self).jobs@.drop_first(),
    {
        match self.jobs.pop_front() {
            Some(job) => Some(Job { config: job.config, submitted: job.submitted, status: JobStatus::Done { runtime, result } }),
            None => None,
        }
    }
}

/// Jobs are worked on in the order they were submitted: a job queued behind others does
/// not change which job is worked on, a job queued into an empty queue is worked on next,
/// and completing the current job leaves the others in their order.
pub proof fn law_queue_first_in_first_out(jobs: Seq<Job>, job: Job)
    ensures
        jobs.len() > 0 ==> jobs.push(job)[0] == jobs[0],
        jobs.len() == 0 ==> jobs.push(job)[0] == job,
        jobs.len() > 0 ==> jobs.push(job).drop_first() == jobs.drop_first().push(job),
{
    if jobs.len() > 0 {
        assert(jobs.push(job).drop_first() =~= jobs.drop_first().push(job));
    }
}

/// What happened on a client's websocket, or on the channel of finished jobs.
pub enum SocketEvent {
    /// The client sent text.
    Text,
    /// The client sent binary data: a client message where it decodes as one.
    Binary(Option<ClientMessage>),
    Ping,
    Pong,
    /// The client closed the connection.
    Close,
    /// Receiving from the socket failed.
    ReceiveFailed,
    /// A job left the queue.
    JobFinished(Job),
    /// Sending to the client failed.
    SendFailed,
}

/// What the server does next with a client's websocket.
pub enum SocketAction {
    /// Keep listening.
    Continue,
    /// Stop serving this client.
    Stop,
    /// Send the message to the client, then keep listening.
    Send(ServerMessage),
}

/// The server's answer to an event: a finished job is announced to the client; a closed
/// connection or a failure to receive or send ends the service; anything else (text,
/// pings, client messages, which ask for nothing yet) is passed over.
pub fn socket_step(event: SocketEvent) -> (r: SocketAction)
    ensures
        match event {
            SocketEvent::Close | SocketEvent::ReceiveFailed | SocketEvent::SendFailed => r is Stop,
            SocketEvent::JobFinished(job) => if job.status is Done {
                r == SocketAction::Send(ServerMessage::RemoveQueueItem(job))
            } else {
                r is Continue
            },
            _ => r is Continue,
        },
{
    match event {
        SocketEvent::Close | SocketEvent::ReceiveFailed | SocketEvent::SendFailed => SocketAction::Stop,
        SocketEvent::JobFinished(job) => match job.status {
            JobStatus::Done { .. } => SocketAction::Send(ServerMessage::RemoveQueueItem(job)),
            JobStatus::Waiting => SocketAction::Continue,
        },
        _ => SocketAction::Continue,
    }
}

} // verus!
