//! The connection lease: the ownership record of a pooled transport for the
//! duration of one exchange.
//!
//! The lease holds the transport together with the instant (in the pool's own
//! clock ticks) at which it was acquired. It is the sole authority for the
//! release-vs-close decision. Surrendering the transport produces a
//! [`PoolCommand`], which the unverified shell performs against the real
//! pool; the lease itself only guarantees that at most one such command ever
//! carries the transport out, and that surrendering an already-empty lease is
//! a silent no-op.

use vstd::prelude::*;

verus! {

/// What the pool must be told after a lease decision.
///
/// `Release` hands the transport to the pool's reuse path together with its
/// acquisition instant; `Close` hands it to the discard path; `Noop` means
/// the lease was already empty and the pool must not be touched.
pub enum PoolCommand<T> {
    Release(T, u64),
    Close(T),
    Noop,
}

/// An HTTP/1 client connection lease over a transport `T`.
///
/// Invariant kept by every method: once the transport has been surrendered
/// (by `close`, `release` or `on_release`) the slot stays empty, and further
/// surrender calls return `PoolCommand::Noop`.
pub struct H1Connection<T> {
    /// The leased transport; empty once surrendered.
    pub io: Option<T>,
    /// The instant the lease was acquired, in the pool's clock ticks.
    pub created: u64,
}

impl<T> H1Connection<T> {
    /// Whether the lease still holds its transport.
    pub open spec fn held(self) -> bool {
        self.io is Some
    }

    /// The command a `close` produces.
    pub open spec fn close_command(self) -> PoolCommand<T> {
        match self.io {
            Option::Some(io) => PoolCommand::Close(io),
            Option::None => PoolCommand::Noop,
        }
    }

    /// The command a `release` produces.
    pub open spec fn release_command(self) -> PoolCommand<T> {
        match self.io {
            Option::Some(io) => PoolCommand::Release(io, self.created),
            Option::None => PoolCommand::Noop,
        }
    }

    /// The command an `on_release(keep_alive)` produces.
    pub open spec fn surrender_command(self, keep_alive: bool) -> PoolCommand<T> {
        if keep_alive {
            self.release_command()
        } else {
            self.close_command()
        }
    }

    /// The lease after any surrender: the slot is empty, the timestamp kept.
    pub open spec fn surrendered(self) -> H1Connection<T> {
        H1Connection { io: Option::None, created: self.created }
    }

    /// Wrap a freshly acquired transport.
    pub fn new(io: T, created: u64) -> (c: H1Connection<T>)
        ensures
            c.io == Option::Some(io),
            c.created == created,
            c.held(),
    {
        H1Connection { io: Some(io), created }
    }

    /// Whether the lease still holds its transport.
    pub fn is_held(&self) -> (r: bool)
        ensures
            r == self.held(),
    {
        self.io.is_some()
    }

    /// Surrender the transport to the pool's discard path. No-op if the
    /// lease is already empty.
    pub fn close(&mut self) -> (cmd: PoolCommand<T>)
        ensures
            cmd == old(self).close_command(),
            *final(self) == old(self).surrendered(),
    {
        match self.io.take() {
            Some(io) => PoolCommand::Close(io),
            None => PoolCommand::Noop,
        }
    }

    /// Surrender the transport to the pool's reuse path, together with the
    /// acquisition instant. No-op if the lease is already empty.
    pub fn release(&mut self) -> (cmd: PoolCommand<T>)
        ensures
            cmd == old(self).release_command(),
            *final(self) == old(self).surrendered(),
    {
        match self.io.take() {
            Some(io) => PoolCommand::Release(io, self.created),
            None => PoolCommand::Noop,
        }
    }

    /// Surrender the transport, choosing the reuse path exactly when
    /// `keep_alive` holds. No-op if the lease is already empty.
    pub fn on_release(&mut self, keep_alive: bool) -> (cmd: PoolCommand<T>)
        ensures
            cmd == old(self).surrender_command(keep_alive),
            *final(self) == old(self).surrendered(),
    {
        if keep_alive {
            self.release()
        } else {
            self.close()
        }
    }

    /// Take the transport out for one delegated I/O call. The caller must
    /// put it back with [`H1Connection::restore_io`] before any further
    /// lease decision; a lease found empty here means the transport was
    /// already surrendered, and the caller must fail fast.
    pub fn take_io(&mut self) -> (io: Option<T>)
        ensures
            io == old(self).io,
            *final(self) == old(self).surrendered(),
    {
        self.io.take()
    }

    /// Put the transport back after a delegated I/O call.
    pub fn restore_io(&mut self, io: T)
        requires
            !old(self).held(),
        ensures
            *final(self) == (H1Connection { io: Option::Some(io), created: old(self).created }),
    {
        self.io = Some(io);
    }
}

/// Surrendering an already-empty lease is a no-op: no transport is handed to
/// the pool a second time, and the lease stays empty. Together with the
/// `ensures` of `close`, `release` and `on_release` this makes every chain of
/// surrender calls hand the transport out at most once.
pub proof fn lemma_surrender_idempotent<T>(c: H1Connection<T>, keep_alive: bool)
    requires
        !c.held(),
    ensures
        c.surrender_command(keep_alive) == PoolCommand::<T>::Noop,
        c.close_command() == PoolCommand::<T>::Noop,
        c.release_command() == PoolCommand::<T>::Noop,
        c.surrendered() == c,
{
}

/// A surrender of a held lease carries the transport out exactly once: the
/// command holds the transport, the path follows `keep_alive`, and the lease
/// left behind is empty, so every later surrender is a no-op.
pub proof fn lemma_surrender_once<T>(c: H1Connection<T>, keep_alive: bool)
    requires
        c.held(),
    ensures
        keep_alive ==> c.surrender_command(keep_alive)
            == PoolCommand::Release(c.io->Some_0, c.created),
        !keep_alive ==> c.surrender_command(keep_alive) == PoolCommand::Close(c.io->Some_0),
        !c.surrendered().held(),
        c.surrendered().surrender_command(keep_alive) == PoolCommand::<T>::Noop,
{
}

} // verus!
