use shmempipe::requester::{OwnedRequester, RecvResponse, SendRequest};
use shmempipe::{
    create, open_existing, walredo_shm_path, JoinError, JoinPoll, JoinStep, RawSharedMemPipe,
    FROM_WORKER_LEN, MAGIC_READY, MAGIC_TORN_DOWN,
};

const REQUESTER_PID: u32 = 100;
const RESPONDER_PID: u32 = 200;

fn send_whole_request(
    rq: &mut OwnedRequester,
    seg: &mut RawSharedMemPipe,
    payload: &[u8],
) -> u32 {
    let mut s: SendRequest = rq.send_request_begin(seg, payload).unwrap();
    while !s.is_all_sent() {
        s.step(seg);
    }
    s.finish(seg)
}

fn receive_whole_response(recv: &mut RecvResponse, seg: &mut RawSharedMemPipe) {
    assert!(recv.await_response(seg));
    while !recv.is_complete() {
        recv.step(seg);
    }
}

#[test]
fn segment_lifecycle_and_magic() {
    let (mut seg, created) = create();
    assert_eq!(seg.magic, MAGIC_READY);

    let rq = created.try_acquire_requester(&mut seg, REQUESTER_PID);
    assert!(rq.is_some());

    // Joining the ready segment succeeds.
    assert!(open_existing(&seg).is_ok());

    // A segment with a foreign magic value fails with that value in the
    // error.
    seg.magic = 0x1234_5678;
    match open_existing(&seg) {
        Err(JoinError::UnknownMagic { value }) => assert_eq!(value, 0x1234_5678),
        other => panic!("unexpected join result: {:?}", other.is_ok()),
    }

    // A segment whose creator never finished initializing times out.
    seg.magic = 0;
    match open_existing(&seg) {
        Err(JoinError::InitTimeout) => {}
        other => panic!("unexpected join result: {:?}", other.is_ok()),
    }
}

#[test]
fn join_poll_times_out_after_budget() {
    let mut poll = JoinPoll::new();
    for _ in 0..1000 {
        assert_eq!(poll.observe(0), JoinStep::KeepWaiting);
    }
    assert_eq!(poll.observe(0), JoinStep::Failed(JoinError::InitTimeout));

    let mut poll = JoinPoll::new();
    assert_eq!(poll.observe(MAGIC_READY), JoinStep::Ready);
    assert_eq!(
        poll.observe(0xDEAD_BEEF),
        JoinStep::Failed(JoinError::UnknownMagic { value: 0xDEAD_BEEF })
    );
}

#[test]
fn teardown_marks_the_segment() {
    let (mut seg, _created) = create();
    assert!(shmempipe::teardown(&mut seg, REQUESTER_PID));
    assert_eq!(seg.magic, MAGIC_TORN_DOWN);
}

#[test]
fn teardown_refuses_while_responder_is_live() {
    let (mut seg, _created) = create();
    let joined = open_existing(&seg).unwrap();
    let _resp = joined.try_acquire_responder(&mut seg, RESPONDER_PID).unwrap();
    assert!(!shmempipe::teardown(&mut seg, REQUESTER_PID));
    assert_eq!(seg.magic, MAGIC_READY);
}

#[test]
fn requester_reacquisition_by_same_process() {
    let (mut seg, created) = create();
    let first = created.try_acquire_requester(&mut seg, REQUESTER_PID);
    assert!(first.is_some());
    // The same process may re-acquire: the slot holds its identifier.
    let again = shmempipe::SharedMemPipePtr::post_mmap()
        .post_initialization::<shmempipe::Created>()
        .try_acquire_requester(&mut seg, REQUESTER_PID);
    assert!(again.is_some());
    // Another live process may not.
    let other = shmempipe::SharedMemPipePtr::post_mmap()
        .post_initialization::<shmempipe::Created>()
        .try_acquire_requester(&mut seg, REQUESTER_PID + 1);
    assert!(other.is_none());
}

#[test]
fn single_round_trip() {
    let (mut seg, created) = create();
    let mut rq = created.try_acquire_requester(&mut seg, REQUESTER_PID).unwrap();
    let joined = open_existing(&seg).unwrap();
    let mut resp = joined.try_acquire_responder(&mut seg, RESPONDER_PID).unwrap();
    assert!(!resp.was_recovered());

    // Requester sends a 100-byte request.
    let mut payload: Vec<u8> = Vec::new();
    for i in 0..100u32 {
        payload.push((i % 251) as u8);
    }
    let id = send_whole_request(&mut rq, &mut seg, &payload);
    assert_eq!(id, 0);
    assert_eq!(seg.to_worker_waiters, 1);

    let tid = 1u64;
    let distance = rq.register_waiter(id, tid);
    assert_eq!(distance, 0);
    assert!(rq.ready(id));
    assert!(rq.current_is_front(tid));

    // Responder reads the 4-byte length, then the 100 bytes.
    assert_eq!(resp.read_next_frame_len(&mut seg), Ok(100));
    let request = resp.read_exact(&mut seg);
    assert_eq!(request, payload);

    // Responder writes an 8192-byte response.
    let mut response: Vec<u8> = Vec::new();
    for i in 0..8192u32 {
        response.push((i % 253) as u8);
    }
    let mut w = resp.write_all_begin(&response).unwrap();
    while !w.step(&mut seg) {}
    assert_eq!(seg.to_worker_waiters, 0);

    // Requester returns with the 8192 bytes.
    let mut recv = rq.claim_turn(id, tid, response.len());
    receive_whole_response(&mut recv, &mut seg);
    let unpark = rq.finish_receive(&mut seg, id);
    assert!(unpark.is_none());
    assert_eq!(recv.into_bytes(), response);
    assert_eq!(seg.requests, 1);
}

#[test]
fn multi_requester_ticket_ordering() {
    let (mut seg, created) = create();
    let mut rq = created.try_acquire_requester(&mut seg, REQUESTER_PID).unwrap();
    let joined = open_existing(&seg).unwrap();
    let mut resp = joined.try_acquire_responder(&mut seg, RESPONDER_PID).unwrap();

    // Eight callers each submit their ticket as a 4-byte request.
    let mut ids: Vec<u32> = Vec::new();
    for i in 0..8u32 {
        let payload = i.to_le_bytes();
        let id = send_whole_request(&mut rq, &mut seg, &payload);
        assert_eq!(id, i);
        ids.push(id);
    }

    // The callers arrive at the parking lot in a scrambled order.
    for &slot in [3usize, 0, 5, 1, 7, 2, 6, 4].iter() {
        let id = ids[slot];
        let distance = rq.register_waiter(id, 1000 + id as u64);
        assert_eq!(distance as u32, id);
    }

    // The responder echoes each request's 4 bytes.
    for _ in 0..8 {
        assert_eq!(resp.read_next_frame_len(&mut seg), Ok(4));
        let request = resp.read_exact(&mut seg);
        let mut w = resp.write_all_begin(&request).unwrap();
        while !w.step(&mut seg) {}
    }

    // Every caller is served in ticket order and returns with exactly
    // its own ticket.
    for i in 0..8u32 {
        let tid = 1000 + i as u64;
        assert!(rq.ready(i));
        assert!(rq.current_is_front(tid));
        let mut recv = rq.claim_turn(i, tid, 4);
        receive_whole_response(&mut recv, &mut seg);
        let unpark = rq.finish_receive(&mut seg, i);
        if i < 7 {
            assert_eq!(unpark, Some(1000 + (i + 1) as u64));
        } else {
            assert!(unpark.is_none());
        }
        assert_eq!(recv.into_bytes(), i.to_le_bytes().to_vec());
    }
    assert_eq!(seg.to_worker_waiters, 0);
    assert_eq!(seg.requests, 8);
}

#[test]
fn response_of_exactly_ring_capacity_is_delivered() {
    let (mut seg, created) = create();
    let mut rq = created.try_acquire_requester(&mut seg, REQUESTER_PID).unwrap();
    let joined = open_existing(&seg).unwrap();
    let mut resp = joined.try_acquire_responder(&mut seg, RESPONDER_PID).unwrap();

    let id = send_whole_request(&mut rq, &mut seg, &[42u8; 4]);
    let tid = 7u64;
    rq.register_waiter(id, tid);
    assert_eq!(resp.read_next_frame_len(&mut seg), Ok(4));
    let _ = resp.read_exact(&mut seg);

    // A response of exactly the response ring's capacity.
    let mut response: Vec<u8> = Vec::new();
    for i in 0..FROM_WORKER_LEN {
        response.push((i % 241) as u8);
    }
    let mut w = resp.write_all_begin(&response).unwrap();
    // The responder posts the wakeup on its first step, before the ring
    // could be filled, so the requester is never left sleeping.
    let done = w.step(&mut seg);
    assert!(done);

    let mut recv = rq.claim_turn(id, tid, response.len());
    receive_whole_response(&mut recv, &mut seg);
    rq.finish_receive(&mut seg, id);
    assert_eq!(recv.into_bytes(), response);
}

#[test]
fn request_larger_than_the_ring_flows_through_in_pieces() {
    let (mut seg, created) = create();
    let mut rq = created.try_acquire_requester(&mut seg, REQUESTER_PID).unwrap();
    let joined = open_existing(&seg).unwrap();
    let mut resp = joined.try_acquire_responder(&mut seg, RESPONDER_PID).unwrap();

    // A request half again as large as the request ring.
    let total = shmempipe::TO_WORKER_LEN + shmempipe::TO_WORKER_LEN / 2;
    let mut payload: Vec<u8> = Vec::new();
    for i in 0..total {
        payload.push((i % 239) as u8);
    }

    let mut send = rq.send_request_begin(&mut seg, &payload).unwrap();
    // The first step stages a whole ring's worth; the second finds no
    // room, publishes what is staged and posts the worker's wakeup
    // exactly once.
    send.step(&mut seg);
    assert!(!send.is_all_sent());
    send.step(&mut seg);
    assert!(seg.notify_request_written.try_wait());
    assert!(!seg.notify_request_written.try_wait());

    // The worker drains what was published, making room again.
    assert_eq!(resp.read_next_frame_len(&mut seg), Ok(total as u32));
    let mut collected: Vec<u8> = Vec::new();
    let piece = resp.read(&mut seg, total);
    collected.extend_from_slice(&piece);
    assert!(!collected.is_empty());

    // The sender stages the rest and publishes it on its final step.
    while !send.is_all_sent() {
        send.step(&mut seg);
    }
    let id = send.finish(&mut seg);
    assert_eq!(id, 0);

    let piece = resp.read(&mut seg, total - collected.len());
    collected.extend_from_slice(&piece);
    assert_eq!(collected.len(), total);
    assert_eq!(collected, payload);
}

#[test]
fn responder_death_is_observed_as_owner_died() {
    let (mut seg, _created) = create();
    let joined = open_existing(&seg).unwrap();
    let resp = joined.try_acquire_responder(&mut seg, RESPONDER_PID).unwrap();
    assert!(!resp.was_recovered());
    drop(resp);

    // The responder process aborts mid-frame: the robust mutex is left
    // in the owner-died state.
    seg.participants.responder.holder_dies();

    // The next acquisition observes previous-owner-died and proceeds.
    let joined = open_existing(&seg).unwrap();
    let resp = joined.try_acquire_responder(&mut seg, RESPONDER_PID + 1).unwrap();
    assert!(resp.was_recovered());
}

#[test]
fn responder_reports_in_flight_frame_length() {
    let (mut seg, created) = create();
    let mut rq = created.try_acquire_requester(&mut seg, REQUESTER_PID).unwrap();
    let joined = open_existing(&seg).unwrap();
    let mut resp = joined.try_acquire_responder(&mut seg, RESPONDER_PID).unwrap();

    send_whole_request(&mut rq, &mut seg, &[9u8; 10]);
    assert_eq!(resp.read_next_frame_len(&mut seg), Ok(10));
    // A second query while the frame is in progress returns the unread
    // length as the error.
    assert_eq!(resp.read_next_frame_len(&mut seg), Err(10));
    // Partial reads decrement the unread length.
    let part = resp.read(&mut seg, 6);
    assert_eq!(part, vec![9u8; 6]);
    assert_eq!(resp.read_next_frame_len(&mut seg), Err(4));
    let rest = resp.read(&mut seg, 100);
    assert_eq!(rest, vec![9u8; 4]);
    // The frame is drained: the next length can be read again.
    send_whole_request(&mut rq, &mut seg, &[1u8; 3]);
    assert_eq!(resp.read_next_frame_len(&mut seg), Ok(3));
}

#[test]
fn responder_wait_handshake_follows_waiter_count() {
    let (mut seg, created) = create();
    let mut rq = created.try_acquire_requester(&mut seg, REQUESTER_PID).unwrap();
    let joined = open_existing(&seg).unwrap();
    let resp = joined.try_acquire_responder(&mut seg, RESPONDER_PID).unwrap();

    // No request in flight: the worker should block on the eventfd.
    assert!(resp.must_wait_for_wakeup(&seg, true));
    assert!(!resp.must_wait_for_wakeup(&seg, false));

    // With a request in flight the worker spins instead of sleeping.
    send_whole_request(&mut rq, &mut seg, &[1, 2, 3]);
    assert!(!resp.must_wait_for_wakeup(&seg, true));
}

#[test]
fn dump_loops_swaps_out_statistics() {
    let (mut seg, created) = create();
    let rq = created.try_acquire_requester(&mut seg, REQUESTER_PID).unwrap();
    seg.send_request_loops = 5;
    seg.receive_request_loops = 6;
    seg.recv_loops = 7;
    seg.write_loops = 8;
    seg.requests = 9;
    let (sr, rr, rx, tx, reqs) = rq.dump_loops(&mut seg);
    assert_eq!((sr, rr, rx, tx, reqs), (5, 6, 7, 8, 9));
    assert_eq!(seg.send_request_loops, 0);
    assert_eq!(seg.requests, 0);
}

#[test]
fn join_error_messages_carry_the_observed_value() {
    let e = JoinError::UnknownMagic { value: 0xDEAD_BEEF };
    assert_eq!(e.message(), "shared memory area has unknown magic: 0xdeadbeef");
    let e = JoinError::UnknownMagic { value: 0x0000_0001 };
    assert_eq!(e.message(), "shared memory area has unknown magic: 0x00000001");
    assert_eq!(
        JoinError::InitTimeout.message(),
        "shared memory area did not complete initialization before timeout"
    );
}

#[test]
fn oversized_request_error_message() {
    let e = shmempipe::requester::RequestTooLarge;
    assert_eq!(e.message(), "request cannot exceed 4 GB");
}

#[test]
fn walredo_path_for_valid_tenant() {
    let tenant = b"0123456789abcdef0123456789ABCDEF";
    let path = walredo_shm_path(tenant).unwrap();
    let mut expected = b"/walredo-".to_vec();
    expected.extend_from_slice(tenant);
    assert_eq!(path, expected);
}

#[test]
fn walredo_path_rejects_bad_tenants() {
    // Wrong length.
    assert!(walredo_shm_path(b"0123456789abcdef").is_none());
    // Right length, but not hexadecimal.
    assert!(walredo_shm_path(b"0123456789abcdefg123456789abcdef").is_none());
    // Empty.
    assert!(walredo_shm_path(b"").is_none());
}

#[test]
fn empty_response_write_is_a_no_op() {
    let (mut seg, _created) = create();
    let joined = open_existing(&seg).unwrap();
    let resp = joined.try_acquire_responder(&mut seg, RESPONDER_PID).unwrap();
    assert!(resp.write_all_begin(&[]).is_none());
}
