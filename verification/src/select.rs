//! Readiness polling: the descriptor sets and the time limit of `select`.

use vstd::prelude::*;
use crate::call::SelectCall;
use crate::socket::Socket;
use crate::winapi::{FD_SET, FD_SETSIZE, SOCKET, timeval};

verus! {

impl FD_SET {
    /// The set holds exactly the descriptors `fds`, in their order, and its
    /// unused entries are zero.
    pub open spec fn holds(&self, fds: Seq<SOCKET>) -> bool {
        &&& fds.len() <= FD_SETSIZE
        &&& self.fd_count == fds.len()
        &&& forall|i: int| 0 <= i < fds.len() ==> #[trigger] self.fd_array[i] == fds[i]
        &&& forall|i: int| fds.len() <= i < FD_SETSIZE ==> #[trigger] self.fd_array[i] == 0
    }
}

/// The descriptors of some sockets, in their order.
pub open spec fn descriptors(sockets: Seq<&Socket>) -> Seq<SOCKET> {
    Seq::new(sockets.len(), |i: int| sockets[i].raw())
}

/// The argument that `select` gets for a list of sockets: no set for an
/// empty list, else the set of their descriptors.
pub open spec fn set_or_null(arg: Option<FD_SET>, sockets: Seq<&Socket>) -> bool {
    match arg {
        None => sockets.len() == 0,
        Some(set) => sockets.len() > 0 && set.holds(descriptors(sockets)),
    }
}

/// The length of a time span in microseconds.
pub open spec fn micros(tv: timeval) -> int {
    tv.tv_sec * 1_000_000 + tv.tv_usec
}

/// The longest time span that whole milliseconds can make in the native
/// layer's fields: `i32::MAX` seconds and 999 milliseconds.
pub open spec fn longest_timeval() -> timeval {
    timeval { tv_sec: i32::MAX, tv_usec: 999_000 }
}

/// A time span of `timeout_ms` milliseconds as the native layer takes it:
/// the whole seconds, and the rest in microseconds. A span of more seconds
/// than a signed 32-bit number can hold becomes the longest span there is.
pub open spec fn ms_to_timeval_spec(timeout_ms: u64) -> timeval {
    if timeout_ms / 1000 <= i32::MAX {
        timeval {
            tv_sec: (timeout_ms / 1000) as i32,
            tv_usec: ((timeout_ms % 1000) * 1000) as i32,
        }
    } else {
        longest_timeval()
    }
}

/// Converts a time span in milliseconds into seconds and microseconds. The
/// result is never negative and never longer than what was asked for; it is
/// shorter only where the fields cannot hold the span, and is then the
/// longest span that they can hold.
pub fn ms_to_timeval(timeout_ms: u64) -> (tv: timeval)
    ensures
        tv == ms_to_timeval_spec(timeout_ms),
        0 <= tv.tv_sec,
        0 <= tv.tv_usec < 1_000_000,
        timeout_ms / 1000 <= i32::MAX ==> micros(tv) == timeout_ms * 1000,
        timeout_ms / 1000 > i32::MAX ==> tv == longest_timeval() && micros(tv) < timeout_ms
            * 1000,
{
    let secs = timeout_ms / 1000;
    if secs <= 0x7fff_ffff {
        timeval { tv_sec: secs as i32, tv_usec: ((timeout_ms % 1000) * 1000) as i32 }
    } else {
        timeval { tv_sec: i32::MAX, tv_usec: 999_000 }
    }
}

/// A longer time limit never becomes a shorter one: the conversion keeps
/// the order of time spans.
pub proof fn lemma_ms_to_timeval_is_monotone(shorter_ms: u64, longer_ms: u64)
    requires
        shorter_ms <= longer_ms,
    ensures
        micros(ms_to_timeval_spec(shorter_ms)) <= micros(ms_to_timeval_spec(longer_ms)),
{
}

/// Builds the descriptor set of some sockets. The sockets are only looked
/// at; nothing of them is kept.
pub fn sockets_to_fd_set(sockets: &[&Socket]) -> (set: FD_SET)
    requires
        sockets@.len() <= FD_SETSIZE,
    ensures
        set.holds(descriptors(sockets@)),
        set.wf(),
        set@ == descriptors(sockets@),
{
    let mut raw_fds = FD_SET { fd_count: 0, fd_array: [0usize; 64] };
    let mut idx: usize = 0;
    while idx < sockets.len()
        invariant
            idx <= sockets@.len() <= FD_SETSIZE,
            raw_fds.fd_count == idx,
            forall|i: int| 0 <= i < idx ==> raw_fds.fd_array[i] == sockets@[i].raw(),
            forall|i: int| idx <= i < FD_SETSIZE ==> raw_fds.fd_array[i] == 0,
        decreases sockets@.len() - idx,
    {
        raw_fds.fd_array[idx] = sockets[idx].raw();
        raw_fds.fd_count = raw_fds.fd_count + 1;
        idx = idx + 1;
    }
    raw_fds
}

/// The set that `select` gets for a list of sockets, or none for an empty
/// list.
fn fd_set_arg(sockets: &[&Socket]) -> (arg: Option<FD_SET>)
    requires
        sockets@.len() <= FD_SETSIZE,
    ensures
        set_or_null(arg, sockets@),
{
    if sockets.len() > 0 {
        Some(sockets_to_fd_set(sockets))
    } else {
        None
    }
}

/// Asks which of the given sockets are ready: to be read from, to be
/// written to, or with an exceptional condition pending.
///
/// Without a time limit the native call blocks until a socket is ready.
///
/// No list may hold more than `FD_SETSIZE` sockets. The native layer does
/// not accept three empty lists at once; this function passes them on as
/// three null pointers all the same, and leaves it to the caller not to ask
/// for that.
pub fn select(
    read_fds: &[&Socket],
    write_fds: &[&Socket],
    except_fds: &[&Socket],
    timeout_ms: Option<u64>,
) -> (call: SelectCall)
    requires
        read_fds@.len() <= FD_SETSIZE,
        write_fds@.len() <= FD_SETSIZE,
        except_fds@.len() <= FD_SETSIZE,
    ensures
        call.nfds == 0,
        set_or_null(call.readfds, read_fds@),
        set_or_null(call.writefds, write_fds@),
        set_or_null(call.exceptfds, except_fds@),
        call.timeout == match timeout_ms {
            Some(ms) => Some(ms_to_timeval_spec(ms)),
            None => None,
        },
{
    let timeout = match timeout_ms {
        Some(ms) => Some(ms_to_timeval(ms)),
        None => None,
    };
    SelectCall {
        nfds: 0,
        readfds: fd_set_arg(read_fds),
        writefds: fd_set_arg(write_fds),
        exceptfds: fd_set_arg(except_fds),
        timeout,
    }
}

} // verus!
