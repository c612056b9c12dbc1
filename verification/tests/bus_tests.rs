use plane_system::arbiter::ensure_outcome;
use plane_system::arbiter::ensure_policy;
use plane_system::arbiter::ensure_step;
use plane_system::arbiter::Arbiter;
use plane_system::arbiter::EnsureAction;
use plane_system::arbiter::HandleRefs;
use plane_system::bus::Command;
use plane_system::bus::CommandQueue;
use plane_system::commands::CameraRequest;
use plane_system::commands::CameraResponse;
use plane_system::errors::DeviceError;

#[test]
fn arbiter_admits_one_holder_at_a_time() {
    let mut arbiter = Arbiter::new();
    assert!(!arbiter.is_busy());
    assert!(arbiter.try_enter());
    // While one operation is inside, no second acquisition succeeds.
    assert!(!arbiter.try_enter());
    assert!(!arbiter.try_enter());
    assert!(arbiter.is_busy());
    arbiter.exit();
    assert!(arbiter.try_enter());
    arbiter.exit();
}

#[test]
fn ensure_succeeds_on_third_attempt() {
    // The device reflects the written value only after two polls: the
    // loop writes twice and confirms on the third check.
    let policy = ensure_policy();
    let observations = [false, false, true];
    let mut attempts: u32 = 0;
    let mut result: Option<EnsureAction> = None;
    for observed in observations {
        match ensure_step(&policy, attempts, observed) {
            EnsureAction::Retry => attempts += 1,
            done => {
                result = Some(done);
                break;
            }
        }
    }
    assert_eq!(result, Some(EnsureAction::Done));
    assert_eq!(attempts, 2);
    assert_eq!(ensure_outcome(EnsureAction::Done), Ok(()));
}

#[test]
fn ensure_fails_deterministically_at_the_bound() {
    // A device that never reflects the value: after the configured
    // number of write attempts the loop reports a confirmation timeout.
    let policy = ensure_policy();
    let mut attempts: u32 = 0;
    let outcome = loop {
        match ensure_step(&policy, attempts, false) {
            EnsureAction::Retry => attempts += 1,
            done => break done,
        }
    };
    assert_eq!(outcome, EnsureAction::GiveUp);
    assert_eq!(attempts, policy.max_attempts);
    assert_eq!(
        ensure_outcome(EnsureAction::GiveUp),
        Err(DeviceError::ConfirmationTimeout)
    );
}

#[test]
fn queue_serves_in_arrival_order() {
    let mut queue: CommandQueue<u32, u32> = CommandQueue::new();
    let (first, _rx1) = Command::new(1);
    let (second, _rx2) = Command::new(2);
    let (third, _rx3) = Command::new(3);
    queue.enqueue(first);
    queue.enqueue(second);
    queue.enqueue(third);
    assert_eq!(queue.len(), 3);
    assert_eq!(*queue.dequeue().unwrap().request(), 1);
    assert_eq!(*queue.dequeue().unwrap().request(), 2);
    assert_eq!(*queue.dequeue().unwrap().request(), 3);
    assert!(queue.dequeue().is_none());
}

#[test]
fn replies_arrive_in_service_order() {
    let mut queue: CommandQueue<CameraRequest, CameraResponse> = CommandQueue::new();
    let (first, mut rx1) = Command::new(CameraRequest::Capture);
    let (second, mut rx2) = Command::new(CameraRequest::Reset);
    queue.enqueue(first);
    queue.enqueue(second);

    let served_first = queue.dequeue().unwrap();
    assert_eq!(*served_first.request(), CameraRequest::Capture);
    assert!(served_first.respond(Ok(CameraResponse::Unit)).is_ok());
    // The first caller already has its reply while the second still waits.
    assert!(matches!(rx1.try_recv(), Ok(Ok(CameraResponse::Unit))));
    assert!(rx2.try_recv().is_err());

    let served_second = queue.dequeue().unwrap();
    assert!(served_second.success(CameraResponse::Unit).is_ok());
    assert!(matches!(rx2.try_recv(), Ok(Ok(CameraResponse::Unit))));
}

#[test]
fn abandoned_reply_channel_is_discarded_quietly() {
    let (cmd, rx) = Command::<CameraRequest, CameraResponse>::new(CameraRequest::Capture);
    drop(rx);
    // The consumer must not crash and must get the result back to
    // discard, rather than an error to escalate.
    match cmd.respond(Ok(CameraResponse::Unit)) {
        Ok(()) => panic!("a reply without a receiver cannot be delivered"),
        Err(discarded) => assert_eq!(discarded, Ok(CameraResponse::Unit)),
    }
}

#[test]
fn error_replies_carry_the_device_error() {
    let (cmd, mut rx) = Command::<CameraRequest, CameraResponse>::new(CameraRequest::Reset);
    assert!(cmd.error(DeviceError::DeviceBusy).is_ok());
    assert!(matches!(rx.try_recv(), Ok(Err(DeviceError::DeviceBusy))));
}

#[test]
fn last_release_tears_down_exactly_once() {
    let mut refs = HandleRefs::new();
    refs.acquire();
    refs.acquire();
    assert!(!refs.release());
    assert!(!refs.release());
    assert!(refs.release());
}

#[test]
fn full_bounded_queue_refuses_without_dropping() {
    let mut queue: CommandQueue<u32, u32> = CommandQueue::bounded(2);
    let (first, _rx1) = Command::new(1);
    let (second, _rx2) = Command::new(2);
    let (third, _rx3) = Command::new(3);
    assert!(queue.try_enqueue(first).is_none());
    assert!(queue.try_enqueue(second).is_none());
    // The queue is full: the producer gets its command back to retry,
    // and nothing already queued is lost.
    let refused = queue.try_enqueue(third).expect("the bound must hold");
    assert_eq!(*refused.request(), 3);
    assert_eq!(queue.len(), 2);
    assert_eq!(*queue.dequeue().unwrap().request(), 1);
    assert!(queue.try_enqueue(refused).is_none());
    assert_eq!(*queue.dequeue().unwrap().request(), 2);
    assert_eq!(*queue.dequeue().unwrap().request(), 3);
}
