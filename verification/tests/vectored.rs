use mio::Ready;
use mio_serial::error::{ErrorKind, IoError, WSAECONNRESET};
use mio_serial::from_raw_arc::Arena;
use mio_serial::windows::inner::{
    ReadvJob, ReadvStep, RegisterStep, State, WriteJob, WriteStep, WritevStep,
};
use mio_serial::windows::{
    cancel, completion_modes, connect_done, connect_read_issued, no_notify_on_instant_completion,
    read_done, would_block, write_done, ConnectDone, ReadDone, SerialImp, SerialIo, WriteDone,
};
use mio_serial::Serial;

const ADDR: usize = 0x4000;
const READ: usize = 16;
const WRITE: usize = 56;
const SIZE: usize = 128;

type Ports = Arena<SerialIo<&'static str>>;

fn error(code: i32) -> IoError {
    IoError { kind: ErrorKind::Other, raw_os_error: Some(code), message: None, source: None }
}

fn blocking() -> IoError {
    IoError { kind: ErrorKind::WouldBlock, raw_os_error: None, message: None, source: None }
}

fn port() -> (Ports, Serial<&'static str>) {
    let mut arena = Arena::new();
    let opened: Result<&'static str, ()> = Ok("COM1");
    let serial = Serial::from_path(&mut arena, ADDR, opened, error(2)).unwrap();
    (arena, serial)
}

/// A registered port with nothing asked for.
fn registered() -> (Ports, Serial<&'static str>) {
    let (mut arena, serial) = port();
    assert!(matches!(serial.register(&mut arena, Ok(())), RegisterStep::SetModes(3)));
    let step = serial.register_modes(&mut arena, Ready::empty(), 1, error(5));
    assert!(matches!(step, RegisterStep::Done(Ok(()))));
    (arena, serial)
}

/// A registered port with something to be read.
fn readable() -> (Ports, Serial<&'static str>) {
    let (mut arena, serial) = registered();
    let step = serial.reregister(&mut arena, Ready::readable(), Ok(()));
    assert!(matches!(step, RegisterStep::IssueRead));
    serial.register_read_issued(&mut arena, Ready::readable(), Ok(Some(0)));
    (arena, serial)
}

fn shown(arena: &Ports, serial: &Serial<&'static str>) -> Ready {
    serial.imp().io(arena).inner.iocp.readiness()
}

#[test]
fn an_opened_port_is_alone_with_its_block() {
    let (arena, serial) = port();
    assert_eq!(arena.count(ADDR), 1);
    assert_eq!(serial.imp().as_raw(), ADDR);
    let io = serial.imp().io(&arena);
    assert_eq!(io.serial, "COM1");
    assert!(matches!(io.inner.read, State::Empty));
    assert!(matches!(io.inner.write, State::Empty));
    assert!(!io.inner.instant_notify);
    assert!(!io.inner.iocp.registered());
}

#[test]
fn a_port_that_cannot_be_opened_gives_the_last_error() {
    let mut arena: Ports = Arena::new();
    let opened: Result<&'static str, u8> = Err(77);
    match Serial::from_path(&mut arena, ADDR, opened, error(2)) {
        Err(e) => assert_eq!(e.raw_os_error, Some(2)),
        Ok(_) => panic!("opened"),
    }
    assert!(!arena.contains(ADDR));
}

#[test]
fn reading_a_port_without_data_would_block() {
    let (mut arena, serial) = port();
    match serial.readv(&mut arena, &[4]) {
        ReadvStep::Return(Err(e)) => {
            assert!(e.is_would_block());
            assert_eq!(e.message, Some("operation would block"));
        }
        other => panic!("{:?}", other),
    }

    let (mut arena, serial) = registered();
    serial.reregister(&mut arena, Ready::readable(), Ok(()));
    serial.register_read_issued(&mut arena, Ready::readable(), Ok(None));
    assert!(matches!(serial.imp().io(&arena).inner.read, State::Pending(())));
    match serial.readv(&mut arena, &[4]) {
        ReadvStep::Return(Err(e)) => assert!(e.is_would_block()),
        other => panic!("{:?}", other),
    }
    assert!(matches!(serial.imp().io(&arena).inner.read, State::Pending(())));
}

#[test]
fn buffers_are_filled_in_order() {
    let (mut arena, serial) = readable();
    let lens = [3, 4];
    let job = match serial.readv(&mut arena, &lens) {
        ReadvStep::Read(job) => job,
        other => panic!("{:?}", other),
    };
    assert_eq!(job, ReadvJob { index: 0, amt: 0 });
    let job = match serial.readv_read(&mut arena, &lens, job, Ok(3)) {
        ReadvStep::Read(job) => job,
        other => panic!("{:?}", other),
    };
    assert_eq!(job, ReadvJob { index: 1, amt: 3 });
    match serial.readv_read(&mut arena, &lens, job, Ok(4)) {
        ReadvStep::Return(Ok(n)) => assert_eq!(n, 7),
        other => panic!("{:?}", other),
    }
    assert!(matches!(serial.imp().io(&arena).inner.read, State::Ready(())));
}

#[test]
fn a_short_read_ends_it() {
    let (mut arena, serial) = readable();
    let lens = [3, 4, 5];
    let job = ReadvJob { index: 1, amt: 3 };
    match serial.readv_read(&mut arena, &lens, job, Ok(2)) {
        ReadvStep::Return(Ok(n)) => assert_eq!(n, 5),
        other => panic!("{:?}", other),
    }
    assert!(matches!(serial.imp().io(&arena).inner.read, State::Ready(())));
}

#[test]
fn reading_into_no_buffers_gives_nothing() {
    let (mut arena, serial) = readable();
    assert!(matches!(serial.readv(&mut arena, &[]), ReadvStep::Return(Ok(0))));
}

#[test]
fn an_empty_buffer_is_filled_by_nothing() {
    let (mut arena, serial) = readable();
    let lens = [0, 2];
    let job = ReadvJob { index: 0, amt: 0 };
    match serial.readv_read(&mut arena, &lens, job, Ok(0)) {
        ReadvStep::Read(job) => assert_eq!(job, ReadvJob { index: 1, amt: 0 }),
        other => panic!("{:?}", other),
    }
}

#[test]
fn an_error_after_data_is_kept_for_the_next_read() {
    let (mut arena, serial) = readable();
    let lens = [3, 4];
    let job = ReadvJob { index: 1, amt: 3 };
    match serial.readv_read(&mut arena, &lens, job, Err(error(31))) {
        ReadvStep::Return(Ok(n)) => assert_eq!(n, 3),
        other => panic!("{:?}", other),
    }
    assert!(shown(&arena, &serial).is_readable());
    match serial.readv(&mut arena, &lens) {
        ReadvStep::Schedule(Err(e)) => assert_eq!(e.raw_os_error, Some(31)),
        other => panic!("{:?}", other),
    }
    assert!(matches!(serial.imp().io(&arena).inner.read, State::Empty));
    assert!(!shown(&arena, &serial).is_readable());
}

#[test]
fn would_block_after_data_returns_the_data_and_schedules() {
    let (mut arena, serial) = readable();
    let job = ReadvJob { index: 1, amt: 3 };
    match serial.readv_read(&mut arena, &[3, 4], job, Err(blocking())) {
        ReadvStep::Schedule(Ok(n)) => assert_eq!(n, 3),
        other => panic!("{:?}", other),
    }
    assert!(matches!(serial.imp().io(&arena).inner.read, State::Empty));
    assert!(!shown(&arena, &serial).is_readable());
}

#[test]
fn an_error_without_data_is_returned_and_schedules() {
    let (mut arena, serial) = readable();
    let job = ReadvJob { index: 0, amt: 0 };
    match serial.readv_read(&mut arena, &[3, 4], job, Err(error(31))) {
        ReadvStep::Schedule(Err(e)) => assert_eq!(e.raw_os_error, Some(31)),
        other => panic!("{:?}", other),
    }
    assert!(matches!(serial.imp().io(&arena).inner.read, State::Empty));
}

#[test]
fn an_issued_read_in_progress_keeps_a_reference() {
    let (mut arena, serial) = registered();
    serial.reregister(&mut arena, Ready::readable(), Ok(()));
    serial.register_read_issued(&mut arena, Ready::readable(), Ok(None));
    assert_eq!(arena.count(ADDR), 2);
    assert!(!shown(&arena, &serial).is_readable());
    match read_done(&mut arena, ADDR + READ, READ, SIZE, 0) {
        ReadDone::Finished(None) => {}
        _ => panic!("not finished"),
    }
    assert_eq!(arena.count(ADDR), 1);
    assert!(matches!(serial.imp().io(&arena).inner.read, State::Ready(())));
    assert!(shown(&arena, &serial).is_readable());
}

#[test]
fn a_read_that_completes_at_once_is_reported_again_without_instant_notification() {
    let (mut arena, serial) = port();
    serial.imp().read_issued(&mut arena, Ok(Some(0)));
    assert!(matches!(serial.imp().io(&arena).inner.read, State::Pending(())));
    assert_eq!(arena.count(ADDR), 2);
}

#[test]
fn a_block_outlives_a_closed_port_with_a_read_in_progress() {
    let (mut arena, serial) = registered();
    serial.reregister(&mut arena, Ready::readable(), Ok(()));
    serial.register_read_issued(&mut arena, Ready::readable(), Ok(None));
    assert!(serial.cancels_read(&arena));
    assert!(serial.drop(&mut arena).is_none());
    assert_eq!(arena.count(ADDR), 1);
    match read_done(&mut arena, ADDR + READ, READ, SIZE, 0) {
        ReadDone::Finished(Some(io)) => assert_eq!(io.serial, "COM1"),
        _ => panic!("not freed"),
    }
    assert!(!arena.contains(ADDR));
}

#[test]
fn a_read_that_completes_after_the_port_was_closed_is_not_published() {
    let (mut arena, serial) = registered();
    let both = Ready::readable() | Ready::writable();
    serial.reregister(&mut arena, both, Ok(()));
    serial.register_read_issued(&mut arena, both, Ok(None));
    assert_eq!(shown(&arena, &serial), Ready::writable());
    serial.imp().inner(&mut arena).iocp.take_published();
    assert!(serial.drop(&mut arena).is_none());
    match read_done(&mut arena, ADDR + READ, READ, SIZE, 0) {
        ReadDone::Finished(Some(mut io)) => {
            assert!(matches!(io.inner.read, State::Ready(())));
            assert_eq!(io.inner.iocp.readiness(), Ready::writable());
            assert!(io.inner.iocp.take_published().is_empty());
        }
        _ => panic!("not freed"),
    }
}

#[test]
fn a_write_goes_on_in_silence_after_the_port_was_closed() {
    let (mut arena, serial) = registered();
    let job = begin(&mut arena, &serial);
    assert!(matches!(serial.imp().write_issued(&mut arena, job, Ok(None)), WriteStep::Pending));
    // What is published before the port is closed still waits to be handed over.
    assert_eq!(serial.imp().io(&arena).inner.iocp.published, vec![Ready::empty()]);
    assert!(serial.drop(&mut arena).is_none());
    let (me, job) = match write_done(&mut arena, ADDR + WRITE, WRITE, SIZE, 2) {
        WriteDone::Issue(me, job) => (me, job),
        WriteDone::Finished(_) => panic!("finished"),
    };
    assert_eq!(job.rest(), b"llo");
    assert!(matches!(me.write_issued(&mut arena, job, Ok(Some(3))), WriteStep::Done));
    match me.drop(&mut arena) {
        Some(mut io) => {
            assert!(matches!(io.inner.write, State::Empty));
            assert_eq!(io.inner.iocp.readiness(), Ready::empty());
            assert_eq!(io.inner.iocp.take_published(), vec![Ready::empty()]);
        }
        None => panic!("not freed"),
    }
}

#[test]
fn taking_what_was_published_leaves_a_write_alone() {
    let (mut arena, serial) = registered();
    let job = begin(&mut arena, &serial);
    serial.imp().inner(&mut arena).iocp.take_published();
    let step = serial.imp().write_issued(&mut arena, job, Ok(Some(2)));
    serial.imp().inner(&mut arena).iocp.take_published();
    match step {
        WriteStep::Issue(job) => {
            assert_eq!(job.rest(), b"llo");
            let step = serial.imp().write_issued(&mut arena, job, Ok(Some(3)));
            assert!(matches!(step, WriteStep::Done));
        }
        _ => panic!("not issued"),
    }
    let sets = serial.imp().inner(&mut arena).iocp.take_published();
    assert_eq!(sets, vec![Ready::writable()]);
    assert_eq!(shown(&arena, &serial), Ready::writable());
}

#[test]
fn a_block_outlives_a_closed_port_with_a_connect_in_progress() {
    let (mut arena, serial) = registered();
    serial.imp().lend(&mut arena);
    serial.imp().inner(&mut arena).iocp.take_published();
    assert!(serial.cancels_read(&arena));
    assert!(serial.drop(&mut arena).is_none());
    assert_eq!(arena.count(ADDR), 1);
    let me = match read_done(&mut arena, ADDR + READ, READ, SIZE, 0) {
        ReadDone::Connect(me) => me,
        ReadDone::Finished(_) => panic!("a read"),
    };
    let me = match connect_done(me, &mut arena, Ok(())) {
        ConnectDone::IssueRead(me) => me,
        ConnectDone::Finished(_) => panic!("finished"),
    };
    assert!(connect_read_issued(me, &mut arena, Ok(None)).is_none());
    assert_eq!(arena.count(ADDR), 1);
    match read_done(&mut arena, ADDR + READ, READ, SIZE, 0) {
        ReadDone::Finished(Some(mut io)) => {
            assert_eq!(io.inner.iocp.readiness(), Ready::empty());
            assert!(io.inner.iocp.take_published().is_empty());
        }
        _ => panic!("not freed"),
    }
    assert!(!arena.contains(ADDR));
}

#[test]
fn a_connect_that_completes_leaves_a_write_in_progress_alone() {
    let (mut arena, serial) = registered();
    serial.imp().lend(&mut arena);
    let job = begin(&mut arena, &serial);
    assert!(matches!(serial.imp().write_issued(&mut arena, job, Ok(None)), WriteStep::Pending));
    assert_eq!(arena.count(ADDR), 3);
    let me = match read_done(&mut arena, ADDR + READ, READ, SIZE, 0) {
        ReadDone::Connect(me) => me,
        ReadDone::Finished(_) => panic!("a read"),
    };
    match connect_done(me, &mut arena, Err(error(10061))) {
        ConnectDone::Finished(None) => {}
        _ => panic!("not finished"),
    }
    assert_eq!(arena.count(ADDR), 2);
    assert_eq!(shown(&arena, &serial), Ready::readable() | Ready::writable());
    match serial.imp().io(&arena).inner.write {
        State::Pending((ref buf, pos)) => assert_eq!((&buf[..], pos), (&b"hello"[..], 0)),
        ref other => panic!("{:?}", other),
    }
    assert!(matches!(serial.writev(&arena, &[b"more"]), WritevStep::Return(Err(_))));
}

#[test]
fn a_closed_port_without_operations_is_freed() {
    let (mut arena, serial) = readable();
    assert!(!serial.cancels_read(&arena));
    assert!(serial.drop(&mut arena).is_some());
    assert!(!arena.contains(ADDR));
}

#[test]
fn closing_cancels_a_read_that_may_be_in_progress() {
    let (arena, serial) = port();
    assert!(serial.cancels_read(&arena));
    let (mut arena, serial) = readable();
    serial.readv_read(&mut arena, &[1, 1], ReadvJob { index: 1, amt: 1 }, Err(error(31)));
    assert!(!serial.cancels_read(&arena));
}

#[test]
fn a_failed_read_is_shown_and_a_reset_is_a_hang_up() {
    let (mut arena, serial) = registered();
    serial.imp().read_issued(&mut arena, Err(error(31)));
    assert_eq!(shown(&arena, &serial), Ready::readable());
    assert_eq!(arena.count(ADDR), 1);

    let (mut arena, serial) = registered();
    serial.imp().read_issued(&mut arena, Err(error(WSAECONNRESET)));
    let set = shown(&arena, &serial);
    assert!(set.is_readable());
    assert!(set != Ready::readable());
    assert_eq!(set - Ready::readable(), Ready::from_usize(8));
}

#[test]
fn a_failed_read_is_given_to_the_next_reader() {
    let (mut arena, serial) = registered();
    serial.imp().read_issued(&mut arena, Err(error(995)));
    match serial.readv(&mut arena, &[1]) {
        ReadvStep::Schedule(Err(e)) => assert_eq!(e.raw_os_error, Some(995)),
        other => panic!("{:?}", other),
    }
}

#[test]
fn writing_to_an_unregistered_port_would_block() {
    let (arena, serial) = port();
    match serial.writev(&arena, &[b"a"]) {
        WritevStep::Return(Err(e)) => assert!(e.is_would_block()),
        other => panic!("{:?}", other),
    }
}

#[test]
fn writing_no_buffers_writes_nothing() {
    let (arena, serial) = registered();
    assert!(matches!(serial.writev(&arena, &[]), WritevStep::Return(Ok(0))));
}

fn begin(arena: &mut Ports, serial: &Serial<&'static str>) -> WriteJob {
    let bufs: [&[u8]; 3] = [b"hel", b"", b"lo"];
    assert!(matches!(serial.writev(arena, &bufs), WritevStep::Gather(5)));
    let job = serial.writev_gather(arena, &bufs, Vec::new());
    assert_eq!(job.buf, b"hello".to_vec());
    assert_eq!(job.pos, 0);
    job
}

#[test]
fn a_write_is_gathered_and_written_in_parts() {
    let (mut arena, serial) = registered();
    serial.reregister(&mut arena, Ready::writable(), Ok(()));
    assert!(shown(&arena, &serial).is_writable());
    let job = begin(&mut arena, &serial);
    assert!(!shown(&arena, &serial).is_writable());
    assert_eq!(job.rest(), b"hello");
    let job = match serial.imp().write_issued(&mut arena, job, Ok(Some(2))) {
        WriteStep::Issue(job) => job,
        _ => panic!("not issued again"),
    };
    assert!(!shown(&arena, &serial).is_writable());
    assert_eq!(job.rest(), b"llo");
    assert!(matches!(
        serial.imp().write_issued(&mut arena, job, Ok(Some(3))),
        WriteStep::Done
    ));
    assert!(shown(&arena, &serial).is_writable());
    assert!(matches!(serial.imp().io(&arena).inner.write, State::Empty));
    assert_eq!(arena.count(ADDR), 1);
}

#[test]
fn a_write_in_progress_completes_in_parts() {
    let (mut arena, serial) = registered();
    let job = begin(&mut arena, &serial);
    assert!(matches!(serial.imp().write_issued(&mut arena, job, Ok(None)), WriteStep::Pending));
    assert_eq!(arena.count(ADDR), 2);
    match serial.writev(&arena, &[b"more"]) {
        WritevStep::Return(Err(e)) => assert!(e.is_would_block()),
        other => panic!("{:?}", other),
    }
    let (me, job): (SerialImp<&'static str>, WriteJob) =
        match write_done(&mut arena, ADDR + WRITE, WRITE, SIZE, 4) {
            WriteDone::Issue(me, job) => (me, job),
            WriteDone::Finished(_) => panic!("finished"),
        };
    assert_eq!(job.rest(), b"o");
    assert!(!shown(&arena, &serial).is_writable());
    assert!(matches!(me.write_issued(&mut arena, job, Ok(None)), WriteStep::Pending));
    assert_eq!(arena.count(ADDR), 3);
    assert!(me.drop(&mut arena).is_none());
    assert_eq!(arena.count(ADDR), 2);
    match write_done(&mut arena, ADDR + WRITE, WRITE, SIZE, 1) {
        WriteDone::Finished(None) => {}
        _ => panic!("not finished"),
    }
    assert_eq!(arena.count(ADDR), 1);
    assert!(shown(&arena, &serial).is_writable());
    assert!(matches!(serial.imp().io(&arena).inner.write, State::Empty));
}

#[test]
fn a_failed_write_gives_its_buffer_back_and_stays_failed() {
    let (mut arena, serial) = registered();
    let job = begin(&mut arena, &serial);
    match serial.imp().write_issued(&mut arena, job, Err(error(22))) {
        WriteStep::Failed(buf) => assert_eq!(buf, b"hello".to_vec()),
        _ => panic!("not failed"),
    }
    assert!(shown(&arena, &serial).is_writable());
    match &serial.imp().io(&arena).inner.write {
        State::Error(e) => assert_eq!(e.raw_os_error, Some(22)),
        _ => panic!("no error"),
    }
    match serial.writev(&arena, &[b"again"]) {
        WritevStep::Return(Err(e)) => assert!(e.is_would_block()),
        other => panic!("{:?}", other),
    }
}

#[test]
fn gathering_goes_on_behind_what_the_buffer_holds() {
    let (mut arena, serial) = registered();
    let job = serial.writev_gather(&mut arena, &[b"bc", b"d"], b"a".to_vec());
    assert_eq!(job.buf, b"abcd".to_vec());
    assert_eq!(job.pos, 0);
}

#[test]
fn a_port_that_cannot_be_bound_is_not_registered() {
    let (mut arena, serial) = port();
    match serial.register(&mut arena, Err(error(87))) {
        RegisterStep::Done(Err(e)) => assert_eq!(e.raw_os_error, Some(87)),
        other => panic!("{:?}", other),
    }
    assert!(!serial.imp().io(&arena).inner.iocp.registered());
}

#[test]
fn completion_modes_that_cannot_be_set_end_the_registration() {
    let (mut arena, serial) = port();
    serial.register(&mut arena, Ok(()));
    let interest = Ready::readable() | Ready::writable();
    match serial.register_modes(&mut arena, interest, 0, error(6)) {
        RegisterStep::Done(Err(e)) => assert_eq!(e.raw_os_error, Some(6)),
        other => panic!("{:?}", other),
    }
    let io = serial.imp().io(&arena);
    assert!(io.inner.iocp.registered());
    assert!(!io.inner.instant_notify);
    assert_eq!(io.inner.iocp.readiness(), Ready::empty());
}

#[test]
fn a_registered_port_is_writable_at_once() {
    let (mut arena, serial) = port();
    serial.register(&mut arena, Ok(()));
    let interest = Ready::readable() | Ready::writable();
    let step = serial.register_modes(&mut arena, interest, 1, error(6));
    assert!(matches!(step, RegisterStep::IssueRead));
    assert!(serial.imp().io(&arena).inner.instant_notify);
    serial.register_read_issued(&mut arena, interest, Ok(None));
    assert_eq!(shown(&arena, &serial), Ready::writable());
    let step = serial.reregister(&mut arena, interest, Ok(()));
    assert!(matches!(step, RegisterStep::Done(Ok(()))));
}

#[test]
fn reregistering_a_readable_port_shows_it_again() {
    let (mut arena, serial) = readable();
    let before = serial.imp().inner(&mut arena).iocp.take_published();
    assert_eq!(before, vec![Ready::empty(), Ready::readable()]);
    let step = serial.reregister(&mut arena, Ready::readable(), Ok(()));
    assert!(matches!(step, RegisterStep::Done(Ok(()))));
    let after = serial.imp().inner(&mut arena).iocp.take_published();
    assert_eq!(after, vec![Ready::readable()]);
    match serial.reregister(&mut arena, Ready::readable(), Err(error(1))) {
        RegisterStep::Done(Err(e)) => assert_eq!(e.raw_os_error, Some(1)),
        other => panic!("{:?}", other),
    }
}

#[test]
fn a_connect_that_completes_makes_the_port_writable_and_reads() {
    let (mut arena, serial) = registered();
    serial.imp().lend(&mut arena);
    let me = match read_done(&mut arena, ADDR + READ, READ, SIZE, 0) {
        ReadDone::Connect(me) => me,
        ReadDone::Finished(_) => panic!("finished"),
    };
    assert_eq!(arena.count(ADDR), 2);
    let me = match connect_done(me, &mut arena, Ok(())) {
        ConnectDone::IssueRead(me) => me,
        ConnectDone::Finished(_) => panic!("finished"),
    };
    assert_eq!(shown(&arena, &serial), Ready::writable());
    assert!(connect_read_issued(me, &mut arena, Ok(Some(0))).is_none());
    assert_eq!(shown(&arena, &serial), Ready::writable() | Ready::readable());
    assert_eq!(arena.count(ADDR), 1);
}

#[test]
fn a_connect_that_fails_is_read_as_an_error() {
    let (mut arena, serial) = registered();
    serial.imp().lend(&mut arena);
    let me = match read_done(&mut arena, ADDR + READ, READ, SIZE, 0) {
        ReadDone::Connect(me) => me,
        ReadDone::Finished(_) => panic!("finished"),
    };
    match connect_done(me, &mut arena, Err(error(61))) {
        ConnectDone::Finished(None) => {}
        _ => panic!("not finished"),
    }
    assert_eq!(shown(&arena, &serial), Ready::writable() | Ready::readable());
    match &serial.imp().io(&arena).inner.read {
        State::Error(e) => assert_eq!(e.raw_os_error, Some(61)),
        other => panic!("{:?}", other),
    }
}

#[test]
fn how_the_calls_of_the_operating_system_went() {
    assert_eq!(completion_modes(), 3);
    assert!(no_notify_on_instant_completion(1, error(6)).is_ok());
    assert!(no_notify_on_instant_completion(0, error(6)).is_err());
    assert_eq!(no_notify_on_instant_completion(2, error(6)).unwrap_err().raw_os_error, Some(6));
    assert_eq!(cancel(0, error(1168)).unwrap_err().raw_os_error, Some(1168));
    assert!(cancel(1, error(1168)).is_ok());
    assert!(cancel(2, error(1168)).is_ok());
    assert_eq!(would_block().raw_os_error, Some(10035));
}
