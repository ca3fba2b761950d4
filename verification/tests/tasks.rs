use card_linker::errors::{SendError, TaskError, TryLockError, TryRecvError, TrySendError};
use card_linker::tasks::new_task;

#[test]
fn fresh_pair_is_not_ready() {
    let (_worker, caller) = new_task::<u32, u32>();
    assert!(matches!(caller.try_call(1), Ok(false)));
    assert!(matches!(caller.try_call(2), Ok(false)));
}

#[test]
fn fresh_pair_has_nothing_to_collect_or_receive() {
    let (mut worker, mut caller) = new_task::<u32, u32>();
    assert!(matches!(
        caller.try_recv(),
        Err(TaskError::ChannelTryRecev(TryRecvError::Empty))
    ));
    assert!(matches!(
        worker.try_recv(),
        Err(TaskError::ChannelTryRecev(TryRecvError::Empty))
    ));
}

#[test]
fn only_the_first_submission_is_accepted() {
    let (mut worker, mut caller) = new_task::<u32, u32>();
    assert!(worker.try_recv().is_err());
    assert!(matches!(caller.try_call(10), Ok(true)));
    for next in 11..20 {
        assert!(matches!(caller.try_call(next), Ok(false)));
    }
    // collecting does not raise the ready flag
    assert!(caller.try_recv().is_err());
    assert!(matches!(caller.try_call(20), Ok(false)));
    assert!(matches!(worker.try_recv(), Ok(10)));
}

#[test]
fn busy_submission_leaves_the_queued_request() {
    let (mut worker, caller) = new_task::<&'static str, ()>();
    assert!(worker.try_recv().is_err());
    assert!(matches!(caller.try_call("A"), Ok(true)));
    assert!(matches!(caller.try_call("B"), Ok(false)));
    assert!(matches!(worker.try_recv(), Ok("A")));
    assert!(matches!(
        worker.try_recv(),
        Err(TaskError::ChannelTryRecev(TryRecvError::Empty))
    ));
}

#[test]
fn submission_into_a_taken_slot_is_handed_back() {
    let (mut worker, caller) = new_task::<&'static str, ()>();
    assert!(worker.try_recv().is_err());
    assert!(matches!(caller.try_call("A"), Ok(true)));
    // the worker raises the ready flag and takes "A" in one receive; a second
    // receive raises the ready flag again while the slot is empty
    assert!(matches!(worker.try_recv(), Ok("A")));
    assert!(matches!(caller.try_call("B"), Ok(true)));
    assert!(matches!(caller.try_call("C"), Ok(false)));
    assert!(matches!(worker.try_recv(), Ok("B")));
}

#[test]
fn rounds_correspond_one_to_one() {
    let (mut worker, mut caller) = new_task::<u32, u32>();
    for k in 0..50u32 {
        assert!(matches!(
            worker.try_recv(),
            Err(TaskError::ChannelTryRecev(TryRecvError::Empty))
        ));
        assert!(matches!(caller.try_call(k), Ok(true)));
        let request = worker.try_recv().unwrap();
        assert_eq!(request, k);
        assert!(worker.try_ret(request * 3 + 1).is_ok());
        assert_eq!(caller.try_recv().unwrap(), k * 3 + 1);
        assert!(matches!(
            caller.try_recv(),
            Err(TaskError::ChannelTryRecev(TryRecvError::Empty))
        ));
    }
}

#[test]
fn second_response_is_handed_back_while_the_first_waits() {
    let (worker, mut caller) = new_task::<(), u32>();
    assert!(worker.try_ret(1).is_ok());
    match worker.try_ret(2) {
        Err(TaskError::ChannelTrySend(TrySendError::Full(v))) => assert_eq!(v, 2),
        other => panic!("unexpected: {:?}", other),
    }
    assert_eq!(caller.try_recv().unwrap(), 1);
    assert!(worker.try_ret(3).is_ok());
    assert_eq!(caller.try_recv().unwrap(), 3);
}

#[test]
fn closed_channel_ends_blocking_receive() {
    let (mut worker, caller) = new_task::<u32, u32>();
    drop(caller);
    assert_eq!(worker.recv(), None);
    assert_eq!(worker.recv(), None);
}

#[test]
fn request_queued_before_the_caller_went_is_still_received() {
    let (mut worker, caller) = new_task::<u32, u32>();
    assert!(worker.try_recv().is_err());
    assert!(matches!(caller.try_call(7), Ok(true)));
    drop(caller);
    assert_eq!(worker.recv(), Some(7));
    assert_eq!(worker.recv(), None);
}

#[test]
fn closed_channel_is_reported_without_waiting() {
    let (mut worker, caller) = new_task::<u32, u32>();
    drop(caller);
    match worker.try_recv() {
        Err(e) => {
            assert!(matches!(
                e,
                TaskError::ChannelTryRecev(TryRecvError::Disconnected)
            ));
            assert!(e.is_closed());
        }
        Ok(_) => panic!("nothing was sent"),
    }
    match worker.try_ret(5) {
        Err(e) => {
            assert!(e.is_closed());
            match e {
                TaskError::ChannelTrySend(TrySendError::Closed(v)) => assert_eq!(v, 5),
                other => panic!("unexpected: {:?}", other),
            }
        }
        Ok(()) => panic!("the caller is gone"),
    }
    match worker.ret(6) {
        Err(TaskError::ChannelSend(SendError(v))) => assert_eq!(v, 6),
        other => panic!("unexpected: {:?}", other),
    }
}

#[test]
fn caller_sees_a_gone_worker() {
    let (mut worker, mut caller) = new_task::<u32, u32>();
    assert!(worker.try_recv().is_err());
    assert!(worker.try_ret(9).is_ok());
    drop(worker);
    // the ready flag was left up by the worker's receive
    match caller.try_call(1) {
        Err(TaskError::ChannelTrySend(TrySendError::Closed(v))) => assert_eq!(v, 1),
        other => panic!("unexpected: {:?}", other),
    }
    match caller.call(2) {
        Err(TaskError::ChannelSend(SendError(v))) => assert_eq!(v, 2),
        other => panic!("unexpected: {:?}", other),
    }
    // the blocking submission lowered the ready flag although nothing was sent
    assert!(matches!(caller.try_call(3), Ok(false)));
    // the response that waited can still be collected
    assert_eq!(caller.recv(), Some(9));
    assert_eq!(caller.recv(), None);
    assert!(matches!(
        caller.try_recv(),
        Err(TaskError::ChannelTryRecev(TryRecvError::Disconnected))
    ));
}

#[test]
fn blocking_round_across_threads() {
    let (mut worker, mut caller) = new_task::<u32, String>();
    let runtime = tokio::runtime::Builder::new_multi_thread().build().unwrap();
    let served = runtime.spawn_blocking(move || {
        let mut n = 0u32;
        while let Some(request) = worker.recv() {
            assert!(worker.ret(format!("#{}", request)).is_ok());
            n += 1;
        }
        n
    });
    let mut collected = Vec::new();
    for k in 0..5u32 {
        // wait until the worker has raised the ready flag
        loop {
            match caller.try_call(k) {
                Ok(true) => break,
                Ok(false) | Err(TaskError::Mutex(TryLockError)) => std::hint::spin_loop(),
                other => panic!("unexpected: {:?}", other),
            }
        }
        collected.push(caller.recv().unwrap());
    }
    drop(caller);
    assert_eq!(runtime.block_on(served).unwrap(), 5);
    assert_eq!(collected, vec!["#0", "#1", "#2", "#3", "#4"]);
}

#[test]
fn blocking_call_on_a_raised_flag() {
    let (mut worker, caller) = new_task::<u32, u32>();
    assert!(matches!(caller.call(1), Ok(false)));
    assert!(worker.try_recv().is_err());
    assert!(matches!(caller.call(2), Ok(true)));
    assert!(matches!(caller.call(3), Ok(false)));
    assert_eq!(worker.recv(), Some(2));
}

#[test]
fn unsent_value_comes_back() {
    assert_eq!(TrySendError::Full(4u8).into_inner(), 4);
    assert_eq!(TrySendError::Closed(5u8).into_inner(), 5);
    assert!(!TaskError::<u8>::Mutex(TryLockError).is_closed());
    assert!(!TaskError::ChannelTrySend(TrySendError::Full(1u8)).is_closed());
    assert!(!TaskError::<u8>::ChannelTryRecev(TryRecvError::Empty).is_closed());
}

#[test]
fn failures_convert_into_task_errors() {
    assert!(matches!(
        TaskError::<u8>::from(TryLockError),
        TaskError::Mutex(TryLockError)
    ));
    assert!(matches!(
        TaskError::from(TrySendError::Full(3u8)),
        TaskError::ChannelTrySend(TrySendError::Full(3))
    ));
    assert!(matches!(
        TaskError::from(TrySendError::Closed(4u8)),
        TaskError::ChannelTrySend(TrySendError::Closed(4))
    ));
    assert!(matches!(
        TaskError::from(SendError(5u8)),
        TaskError::ChannelSend(SendError(5))
    ));
    assert!(matches!(
        TaskError::<u8>::from(TryRecvError::Disconnected),
        TaskError::ChannelTryRecev(TryRecvError::Disconnected)
    ));
}
