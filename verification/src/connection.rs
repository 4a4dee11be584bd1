//! The connection to the printer's FTP server, which is kept for a while after use.

use crate::clock::Span;
use vstd::prelude::*;

verus! {

/// How long a connection is kept after it was used: fifteen seconds.
pub open spec fn keeping_time() -> Span {
    Span { secs: 15, nanos: 0 }
}

/// How long a connection is kept after it was used.
pub fn conn_cache_duration() -> (r: Span)
    ensures
        r == keeping_time(),
{
    Span { secs: 15, nanos: 0 }
}

/// A connection that is kept for a while after it was used, with the timer that
/// ends the while.
pub enum CachedConnection<C, T> {
    /// Not connected.
    Dark,
    /// On a timeout before closing.
    Cached { conn: C, inactivity_timer: T },
    /// Actively being used.
    InUse,
}

impl<C, T> CachedConnection<C, T> {
    /// The connection that can be used again, if there is one.
    pub open spec fn kept(self) -> Option<C> {
        match self {
            CachedConnection::Cached { conn, .. } => Some(conn),
            _ => None,
        }
    }

    /// The connection was given back.
    pub open spec fn released(conn: C, inactivity_timer: T) -> CachedConnection<C, T> {
        CachedConnection::Cached { conn, inactivity_timer }
    }

    /// What becomes of the slot once an attempt at a connection was made: in use
    /// if there is one, and not connected otherwise.
    pub open spec fn attempted<E>(made: Result<C, E>) -> CachedConnection<C, T> {
        match made {
            Ok(_) => CachedConnection::InUse,
            Err(_) => CachedConnection::Dark,
        }
    }

    /// Not connected.
    pub fn new() -> (r: CachedConnection<C, T>)
        ensures
            r is Dark,
    {
        CachedConnection::Dark
    }

    /// Takes the connection into use. Where there is none, one has to be made,
    /// and [`CachedConnection::connected`] is to be told what became of that.
    pub fn acquire(&mut self) -> (conn: Option<C>)
        requires
            !(*old(self) is InUse),
        ensures
            *final(self) is InUse,
            conn == old(self).kept(),
    {
        let mut before = CachedConnection::InUse;
        std::mem::swap(self, &mut before);
        match before {
            CachedConnection::Cached { conn, .. } => Some(conn),
            _ => None,
        }
    }

    /// Takes in what became of the attempt to make a connection. One that was made
    /// counts as in use until it is given back; one that failed leaves nothing
    /// behind, so that it can be tried again.
    pub fn connected<E>(&mut self, made: Result<C, E>) -> (r: Result<C, E>)
        requires
            *old(self) is InUse,
        ensures
            r == made,
            *final(self) == CachedConnection::<C, T>::attempted(made),
    {
        if made.is_err() {
            *self = CachedConnection::Dark;
        }
        made
    }

    /// Gives the connection back, to be kept until the timer ends.
    pub fn release(&mut self, conn: C, inactivity_timer: T)
        ensures
            *final(self) == CachedConnection::released(conn, inactivity_timer),
    {
        *self = CachedConnection::Cached { conn, inactivity_timer };
    }

    /// Drops a connection that was kept, when its timer ended.
    pub fn expire(&mut self)
        requires
            *old(self) is Cached,
        ensures
            *final(self) is Dark,
    {
        *self = CachedConnection::Dark;
    }

    /// The timer of a connection that is kept.
    pub fn timer(&mut self) -> (r: Option<&mut T>)
        ensures
            match r {
                Some(timer) => {
                    &&& *old(self) matches CachedConnection::Cached { conn, inactivity_timer }
                    &&& inactivity_timer == *timer
                    &&& *final(self) == (CachedConnection::Cached {
                        conn,
                        inactivity_timer: *final(timer),
                    })
                },
                None => !(*old(self) is Cached) && *final(self) == *old(self),
            },
    {
        match self {
            CachedConnection::Cached { inactivity_timer, .. } => Some(inactivity_timer),
            _ => None,
        }
    }
}

/// A connection that is given back is the one that is used next.
pub proof fn law_connection_is_used_again<C, T>(conn: C, inactivity_timer: T)
    ensures
        CachedConnection::released(conn, inactivity_timer).kept() == Some(conn),
        CachedConnection::released(conn, inactivity_timer) !is InUse,
{
}

/// After an attempt at a connection that failed, another can be made.
pub proof fn law_failed_attempt_can_be_repeated<C, T, E>(error: E)
    ensures
        ({
            let made: Result<C, E> = Err(error);
            let slot = CachedConnection::<C, T>::attempted(made);
            slot is Dark && slot !is InUse && slot.kept() is None
        }),
{
}

/// A connection is kept for fifteen seconds; only one that is kept can be used
/// again; and an attempt that succeeded is in use.
pub proof fn law_connections_are_kept_for_a_while<C, T, E>(conn: C, timer: T)
    ensures
        keeping_time().secs == 15 && keeping_time().nanos == 0,
        CachedConnection::<C, T>::Dark.kept() is None,
        CachedConnection::<C, T>::InUse.kept() is None,
        (CachedConnection::Cached { conn, inactivity_timer: timer }).kept() == Some(conn),
        CachedConnection::<C, T>::attempted(Ok::<C, E>(conn)) is InUse,
        CachedConnection::released(conn, timer) == (CachedConnection::Cached {
            conn,
            inactivity_timer: timer,
        }),
{
}

} // verus!
