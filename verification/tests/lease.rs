use h1_exchange::conn::{H1Connection, PoolCommand};

#[test]
fn release_hands_transport_to_reuse_path() {
    let mut c: H1Connection<u32> = H1Connection::new(7, 5);
    assert!(c.is_held());
    let cmd = c.release();
    assert!(matches!(cmd, PoolCommand::Release(7, 5)));
    assert!(!c.is_held());
}

#[test]
fn close_hands_transport_to_discard_path() {
    let mut c: H1Connection<u32> = H1Connection::new(9, 1);
    let cmd = c.close();
    assert!(matches!(cmd, PoolCommand::Close(9)));
    assert!(!c.is_held());
}

#[test]
fn on_release_follows_keep_alive() {
    let mut c: H1Connection<u32> = H1Connection::new(3, 2);
    let cmd = c.on_release(true);
    assert!(matches!(cmd, PoolCommand::Release(3, 2)));

    let mut c: H1Connection<u32> = H1Connection::new(4, 2);
    let cmd = c.on_release(false);
    assert!(matches!(cmd, PoolCommand::Close(4)));
}

#[test]
fn second_surrender_is_noop() {
    let mut c: H1Connection<u32> = H1Connection::new(7, 5);
    let first = c.release();
    assert!(matches!(first, PoolCommand::Release(7, 5)));
    // every further surrender, on either path, hands nothing out
    assert!(matches!(c.release(), PoolCommand::Noop));
    assert!(matches!(c.close(), PoolCommand::Noop));
    assert!(matches!(c.on_release(true), PoolCommand::Noop));
    assert!(matches!(c.on_release(false), PoolCommand::Noop));
    assert!(!c.is_held());
}

#[test]
fn take_and_restore_io() {
    let mut c: H1Connection<u32> = H1Connection::new(11, 0);
    let io = c.take_io();
    assert_eq!(io, Some(11));
    assert!(!c.is_held());
    assert_eq!(c.take_io(), None);
    c.restore_io(11);
    assert!(c.is_held());
}
