use mio::{Ready, Registration};
use mio_serial::binding::Binding;
use mio_serial::error::{would_block, wouldblock, ErrorKind, IoError, WSAECONNRESET};

#[test]
fn nothing_is_shown_before_the_port_is_bound() {
    let mut binding = Binding::new();
    assert!(!binding.registered());
    binding.set_readiness(Ready::readable());
    binding.add_readiness(Ready::writable());
    binding.remove_readiness(Ready::readable());
    assert_eq!(binding.readiness(), Ready::empty());
    assert!(binding.take_published().is_empty());
}

#[test]
fn readiness_is_added_removed_and_published_in_order() {
    let mut binding = Binding::new();
    binding.bind();
    assert!(binding.registered());
    assert_eq!(binding.readiness(), Ready::empty());
    binding.add_readiness(Ready::readable());
    binding.add_readiness(Ready::writable());
    assert_eq!(binding.readiness(), Ready::readable() | Ready::writable());
    binding.remove_readiness(Ready::readable());
    assert_eq!(binding.readiness(), Ready::writable());
    binding.set_readiness(Ready::readable());
    assert_eq!(binding.readiness(), Ready::readable());
    assert_eq!(
        binding.take_published(),
        vec![
            Ready::readable(),
            Ready::readable() | Ready::writable(),
            Ready::writable(),
            Ready::readable(),
        ]
    );
    assert!(binding.take_published().is_empty());
    assert_eq!(binding.readiness(), Ready::readable());
}

#[test]
fn binding_again_starts_with_nothing_ready() {
    let mut binding = Binding::new();
    binding.bind();
    binding.add_readiness(Ready::readable());
    binding.bind();
    assert_eq!(binding.readiness(), Ready::empty());
}

#[test]
fn a_closed_binding_shows_nothing_new() {
    let mut binding = Binding::new();
    binding.bind();
    binding.add_readiness(Ready::writable());
    binding.close();
    binding.add_readiness(Ready::readable());
    binding.remove_readiness(Ready::writable());
    binding.set_readiness(Ready::readable());
    assert!(binding.registered());
    assert_eq!(binding.readiness(), Ready::writable());
    assert_eq!(binding.take_published(), vec![Ready::writable()]);
    assert_eq!(binding.readiness(), Ready::writable());
}

#[test]
fn a_closed_binding_keeps_what_a_dropped_registration_keeps() {
    let (registration, readiness) = Registration::new2();
    let mut binding = Binding::new();
    binding.bind();
    binding.set_readiness(Ready::writable());
    readiness.set_readiness(Ready::writable()).unwrap();
    binding.close();
    drop(registration);
    binding.set_readiness(Ready::readable());
    readiness.set_readiness(Ready::readable()).unwrap();
    assert_eq!(binding.readiness(), readiness.readiness());
    assert_eq!(binding.readiness(), Ready::writable());
}

#[test]
fn removing_what_is_not_shown_changes_nothing() {
    let mut binding = Binding::new();
    binding.bind();
    binding.add_readiness(Ready::writable());
    binding.remove_readiness(Ready::readable());
    assert_eq!(binding.readiness(), Ready::writable());
}

#[test]
fn the_two_would_block_errors() {
    let e = would_block();
    assert_eq!(e.kind, ErrorKind::WouldBlock);
    assert_eq!(e.raw_os_error, Some(10035));
    assert!(e.message.is_none());
    assert!(e.is_would_block());

    let e = wouldblock();
    assert_eq!(e.kind, ErrorKind::WouldBlock);
    assert_eq!(e.raw_os_error, None);
    assert_eq!(e.message, Some("operation would block"));
    assert!(!e.is_connection_reset());
}

#[test]
fn a_reset_connection_is_told_by_its_code() {
    let e = IoError {
        kind: ErrorKind::Other,
        raw_os_error: Some(WSAECONNRESET),
        message: None,
        source: None,
    };
    assert!(e.is_connection_reset());
    assert!(!e.is_would_block());
    assert_eq!(WSAECONNRESET, 10054);
}
