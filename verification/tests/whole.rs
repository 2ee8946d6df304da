use mio::Ready;
use mio_serial::error::{ErrorKind, IoError};
use mio_serial::from_raw_arc::Arena;
use mio_serial::windows::inner::State;
use mio_serial::windows::serial::{
    desired_events, recv_done, send_done, DeregisterStep, Inner, Io, RegisterStep, Serial,
};

const ADDR: usize = 0x800;

fn error(code: i32) -> IoError {
    IoError { kind: ErrorKind::Other, raw_os_error: Some(code), message: None, source: None }
}

fn port(bind: bool) -> (Arena<Io<u8>>, Serial<u8>) {
    let mut arena = Arena::new();
    let mut serial = Serial::new(&mut arena, ADDR, 3);
    if bind {
        assert!(serial.register_done(&mut arena, Ok(())).is_ok());
    }
    (arena, serial)
}

#[test]
fn a_readable_interest_asks_for_hang_ups_too() {
    let hup = Ready::from_usize(8);
    assert_eq!(desired_events(Ready::readable()), Ready::readable() | hup);
    assert_eq!(desired_events(Ready::writable()), Ready::writable());
    assert_eq!(desired_events(Ready::empty()), Ready::empty());
    assert_eq!(desired_events(desired_events(Ready::readable())), Ready::readable() | hup);
}

#[test]
fn a_port_is_registered_when_the_event_loop_has_it() {
    let (mut arena, mut serial) = port(false);
    assert!(!serial.is_registered());
    assert!(!serial.imp().io(&arena).inner.registered());
    match serial.register(Ready::writable(), Ok(())) {
        RegisterStep::Register(events) => assert_eq!(events, Ready::writable()),
        other => panic!("{:?}", other),
    }
    match serial.register(Ready::writable(), Err(error(4))) {
        RegisterStep::Done(Err(e)) => assert_eq!(e.raw_os_error, Some(4)),
        other => panic!("{:?}", other),
    }
    let ret = serial.register_done(&mut arena, Err(error(5)));
    assert_eq!(ret.unwrap_err().raw_os_error, Some(5));
    assert!(!serial.is_registered());
    assert!(!serial.imp().io(&arena).inner.registered());
    assert!(serial.register_done(&mut arena, Ok(())).is_ok());
    assert!(serial.is_registered());
    assert!(serial.imp().io(&arena).inner.registered());
}

#[test]
fn reregistering_and_deregistering() {
    let (_arena, serial) = port(true);
    match serial.reregister(Ready::readable(), Ok(())) {
        RegisterStep::Register(events) => assert!(events.is_readable()),
        other => panic!("{:?}", other),
    }
    assert!(matches!(
        serial.reregister(Ready::readable(), Err(error(9))),
        RegisterStep::Done(Err(_))
    ));
    assert!(matches!(serial.deregister(Ok(())), DeregisterStep::Deregister));
    match serial.deregister(Err(error(9))) {
        DeregisterStep::Done(Err(e)) => assert_eq!(e.raw_os_error, Some(9)),
        other => panic!("{:?}", other),
    }
}

#[test]
fn a_completed_write_leaves_the_port_writable_and_nothing_else() {
    let (mut arena, serial) = port(true);
    serial.imp().lend(&mut arena);
    let me = serial.imp().inner(&mut arena);
    me.write = State::Pending(b"xyz".to_vec());
    me.add_readiness(Ready::readable());
    assert!(send_done(&mut arena, ADDR + 24, 24, 64).is_none());
    let inner = &serial.imp().io(&arena).inner;
    assert!(matches!(inner.write, State::Empty));
    assert_eq!(inner.binding.readiness(), Ready::writable());
    assert_eq!(arena.count(ADDR), 1);
}

#[test]
fn a_completed_read_leaves_its_bytes() {
    let (mut arena, serial) = port(true);
    serial.imp().lend(&mut arena);
    serial.imp().inner(&mut arena).read = State::Pending(vec![1, 2, 3, 4]);
    assert!(recv_done(&mut arena, ADDR + 8, 8, 64, 3).is_none());
    let inner = &serial.imp().io(&arena).inner;
    match &inner.read {
        State::Ready(buf) => assert_eq!(buf, &vec![1, 2, 3]),
        other => panic!("{:?}", other),
    }
    assert_eq!(inner.binding.readiness(), Ready::readable());
    assert_eq!(arena.count(ADDR), 1);
}

#[test]
fn a_completion_frees_a_closed_port() {
    let (mut arena, serial) = port(false);
    serial.imp().lend(&mut arena);
    serial.imp().inner(&mut arena).read = State::Pending(vec![7; 16]);
    assert!(serial.drop(&mut arena).is_none());
    match recv_done(&mut arena, ADDR, 0, 64, 0) {
        Some(io) => {
            assert_eq!(io.serial, 3);
            assert!(!io.inner.registered());
            match io.inner.read {
                State::Ready(buf) => assert!(buf.is_empty()),
                other => panic!("{:?}", other),
            }
        }
        None => panic!("not freed"),
    }
    assert!(!arena.contains(ADDR));
}

#[test]
fn completions_after_the_port_was_closed_are_not_published() {
    let (mut arena, serial) = port(true);
    serial.imp().lend(&mut arena);
    serial.imp().lend(&mut arena);
    let me = serial.imp().inner(&mut arena);
    me.read = State::Pending(vec![0; 4]);
    me.write = State::Pending(b"xyz".to_vec());
    assert!(serial.drop(&mut arena).is_none());
    assert!(send_done(&mut arena, ADDR + 24, 24, 64).is_none());
    match recv_done(&mut arena, ADDR + 8, 8, 64, 2) {
        Some(mut io) => {
            assert!(matches!(io.inner.write, State::Empty));
            match io.inner.read {
                State::Ready(ref buf) => assert_eq!(buf, &vec![0, 0]),
                ref other => panic!("{:?}", other),
            }
            assert_eq!(io.inner.binding.readiness(), Ready::empty());
            assert!(io.inner.binding.take_published().is_empty());
        }
        None => panic!("not freed"),
    }
}

#[test]
fn a_new_port_has_nothing_on_its_way() {
    let inner = Inner::new();
    assert!(!inner.registered());
    assert!(matches!(inner.read, State::Empty));
    assert!(matches!(inner.write, State::Empty));
}
