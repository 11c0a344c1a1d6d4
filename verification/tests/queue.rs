use teebench_web::data_types::{ClientMessage, Job, JobResult, JobStatus, ServerMessage};
use teebench_web::datetime::Duration;
use teebench_web::profiling::JobConfig;
use teebench_web::queue::{socket_step, JobQueue, SocketAction, SocketEvent};

fn job(id: usize) -> Job {
    let mut j = Job::default();
    j.config = JobConfig::Compile(id);
    j
}

#[test]
fn queue_works_first_in_first_out() {
    let mut q = JobQueue::new();
    assert!(q.is_empty());
    assert!(q.current().is_none());
    q.push_job(job(1));
    q.push_job(job(2));
    assert_eq!(q.current().unwrap().config, JobConfig::Compile(1));
    let done = q.complete_current(Duration { seconds: 3, nanoseconds: 5 }, JobResult::Compile(Ok("built".to_string()))).unwrap();
    assert_eq!(done.config, JobConfig::Compile(1));
    assert_eq!(
        done.status,
        JobStatus::Done { runtime: Duration { seconds: 3, nanoseconds: 5 }, result: JobResult::Compile(Ok("built".to_string())) }
    );
    assert_eq!(q.current().unwrap().config, JobConfig::Compile(2));
    q.complete_current(Duration { seconds: 0, nanoseconds: 0 }, JobResult::Compile(Err("no".to_string())));
    assert!(q.is_empty());
    assert!(q.complete_current(Duration { seconds: 0, nanoseconds: 0 }, JobResult::Compile(Err("no".to_string()))).is_none());
}

#[test]
fn queue_default_job_waits() {
    let j = Job::default();
    assert_eq!(j.status, JobStatus::Waiting);
    assert_eq!(j.submitted.offset_seconds, 0);
    assert!(j.submitted.unix_timestamp > 1_600_000_000);
}

#[test]
fn queue_socket_steps() {
    assert!(matches!(socket_step(SocketEvent::Text), SocketAction::Continue));
    assert!(matches!(socket_step(SocketEvent::Ping), SocketAction::Continue));
    assert!(matches!(socket_step(SocketEvent::Binary(Some(ClientMessage::RequestClear))), SocketAction::Continue));
    assert!(matches!(socket_step(SocketEvent::Binary(None)), SocketAction::Continue));
    assert!(matches!(socket_step(SocketEvent::Close), SocketAction::Stop));
    assert!(matches!(socket_step(SocketEvent::ReceiveFailed), SocketAction::Stop));
    assert!(matches!(socket_step(SocketEvent::SendFailed), SocketAction::Stop));
    assert!(matches!(socket_step(SocketEvent::JobFinished(job(1))), SocketAction::Continue));
    let mut q = JobQueue::new();
    q.push_job(job(4));
    let done = q.complete_current(Duration { seconds: 1, nanoseconds: 0 }, JobResult::Compile(Ok(String::new()))).unwrap();
    match socket_step(SocketEvent::JobFinished(done)) {
        SocketAction::Send(ServerMessage::RemoveQueueItem(j)) => assert_eq!(j.config, JobConfig::Compile(4)),
        _ => panic!("a finished job is announced"),
    }
}
