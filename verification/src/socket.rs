//! The socket handle and its operations.

use vstd::prelude::*;
use crate::addr::{SocketAddr, get_raw_addr};
use crate::call::{
    AcceptCall, BindCall, CloseCall, ConnectCall, CreateCall, GetOptCall, IoctlCall, ListenCall,
    NameCall, RecvCall, RecvFromCall, SendCall, SendToCall, SetOptCall, ShutdownCall,
};
use crate::init::Startup;
use crate::winapi::{SOCKADDR_STORAGE_SIZE, SOCKET};

verus! {

/// Which direction of a socket to shut down.
#[derive(Clone, Copy, Debug, PartialEq, Eq)]
pub enum ShutdownType {
    /// Stops any further receives.
    Receive,
    /// Stops any further sends.
    Send,
    /// Stops both sends and receives.
    Both,
}

impl ShutdownType {
    /// The number that the native `shutdown` takes for the direction.
    pub open spec fn how(self) -> i32 {
        match self {
            ShutdownType::Receive => 0,
            ShutdownType::Send => 1,
            ShutdownType::Both => 2,
        }
    }
}

impl From<ShutdownType> for i32 {
    /// The number that the native `shutdown` takes for the direction.
    fn from(direction: ShutdownType) -> (how: i32) {
        match direction {
            ShutdownType::Receive => 0,
            ShutdownType::Send => 1,
            ShutdownType::Both => 2,
        }
    }
}

impl vstd::std_specs::convert::FromSpecImpl<ShutdownType> for i32 {
    open spec fn obeys_from_spec() -> bool {
        true
    }

    open spec fn from_spec(direction: ShutdownType) -> i32 {
        direction.how()
    }
}

/// The control code that switches non-blocking mode: `0x8004667e`, read as a
/// signed 32-bit number.
pub const FIONBIO: i32 = -2147195266;

/// The count of bytes that a native transfer is asked for, for a buffer of
/// `buf_len` bytes: all of them, as far as a signed 32-bit count can say.
pub open spec fn spec_transfer_len(buf_len: usize) -> i32 {
    if buf_len > i32::MAX {
        i32::MAX
    } else {
        buf_len as i32
    }
}

/// Works out the count of bytes that a native transfer is asked for, for a
/// buffer of `buf_len` bytes: the smaller of `buf_len` and `i32::MAX`.
#[verifier::when_used_as_spec(spec_transfer_len)]
pub fn transfer_len(buf_len: usize) -> (len: i32)
    ensures
        len == spec_transfer_len(buf_len),
        0 <= len <= buf_len,
        buf_len <= i32::MAX ==> len == buf_len,
        buf_len > i32::MAX ==> len == i32::MAX,
{
    if buf_len > 0x7fff_ffff {
        0x7fff_ffff
    } else {
        buf_len as i32
    }
}

/// A raw socket: the one owner of one native descriptor.
///
/// The handle cannot be copied, and it ends in one of three ways, each of
/// which uses it up: [`Socket::close`] gives the call that closes the
/// descriptor, [`Socket::teardown`] gives a shutdown and that call, and
/// [`Socket::into_raw_socket`] hands the descriptor to another owner. So a
/// descriptor is released once, by whoever owns it last.
#[must_use]
#[derive(Debug)]
pub struct Socket {
    inner: SOCKET,
}

impl Socket {
    /// The descriptor that the handle owns.
    pub closed spec fn spec_raw(&self) -> SOCKET {
        self.inner
    }

    /// Asks for a new socket of the given family, type and protocol. The
    /// first call on a [`Startup`] says that the network subsystem has to be
    /// started before the descriptor is asked for; no later call does.
    pub fn new(startup: &mut Startup, family: i32, _type: i32, protocol: i32) -> (call: CreateCall)
        ensures
            call == (CreateCall {
                startup: !old(startup).done(),
                family: family,
                kind: _type,
                protocol: protocol,
            }),
            final(startup).done(),
    {
        let first = startup.begin();
        CreateCall { startup: first, family, kind: _type, protocol }
    }

    /// Returns the underlying descriptor. Ownership is not transferred.
    #[verifier::when_used_as_spec(spec_raw)]
    pub fn raw(&self) -> (fd: SOCKET)
        ensures
            fd == self.spec_raw(),
    {
        self.inner
    }

    /// Asks for the socket's name, that is the address it is bound to.
    pub fn name(&self) -> (call: NameCall)
        ensures
            call == (NameCall { socket: self.raw(), namelen: SOCKADDR_STORAGE_SIZE }),
    {
        NameCall { socket: self.inner, namelen: SOCKADDR_STORAGE_SIZE }
    }

    /// Binds the socket to an address.
    pub fn bind(&self, addr: &SocketAddr) -> (call: BindCall)
        ensures
            call.socket == self.raw(),
            call.name.ss_family == addr.native_family(),
            call.name.ss_data@ == addr.native_bytes(),
            call.namelen == addr.native_len(),
    {
        let (name, namelen) = get_raw_addr(addr);
        BindCall { socket: self.inner, name, namelen }
    }

    /// Listens for incoming connections on the socket.
    pub fn listen(&self, backlog: i32) -> (call: ListenCall)
        ensures
            call == (ListenCall { socket: self.raw(), backlog: backlog }),
    {
        ListenCall { socket: self.inner, backlog }
    }

    /// Receives into `buf`: at most as many bytes as it holds, and at most
    /// `i32::MAX`.
    pub fn recv(&self, buf: &[u8], flags: i32) -> (call: RecvCall)
        ensures
            call == (RecvCall {
                socket: self.raw(),
                len: transfer_len(buf.len()),
                flags: flags,
            }),
    {
        RecvCall { socket: self.inner, len: transfer_len(buf.len()), flags }
    }

    /// Receives into `buf` as [`Socket::recv`] does, and asks for the
    /// peer's address too.
    pub fn recv_from(&self, buf: &[u8], flags: i32) -> (call: RecvFromCall)
        ensures
            call == (RecvFromCall {
                socket: self.raw(),
                len: transfer_len(buf.len()),
                flags: flags,
                fromlen: SOCKADDR_STORAGE_SIZE,
            }),
    {
        RecvFromCall {
            socket: self.inner,
            len: transfer_len(buf.len()),
            flags,
            fromlen: SOCKADDR_STORAGE_SIZE,
        }
    }

    /// Sends from `buf`: at most as many bytes as it holds, and at most
    /// `i32::MAX`.
    pub fn send(&self, buf: &[u8], flags: i32) -> (call: SendCall)
        ensures
            call == (SendCall {
                socket: self.raw(),
                len: transfer_len(buf.len()),
                flags: flags,
            }),
    {
        SendCall { socket: self.inner, len: transfer_len(buf.len()), flags }
    }

    /// Sends from `buf` as [`Socket::send`] does, toward the given peer.
    ///
    /// The native layer binds the socket if it is not bound yet;
    /// [`Socket::name`] then tells the address.
    pub fn send_to(&self, buf: &[u8], peer_addr: &SocketAddr, flags: i32) -> (call: SendToCall)
        ensures
            call.socket == self.raw(),
            call.len == transfer_len(buf.len()),
            call.flags == flags,
            call.to.ss_family == peer_addr.native_family(),
            call.to.ss_data@ == peer_addr.native_bytes(),
            call.tolen == peer_addr.native_len(),
    {
        let (to, tolen) = get_raw_addr(peer_addr);
        SendToCall { socket: self.inner, len: transfer_len(buf.len()), flags, to, tolen }
    }

    /// Accepts an incoming connection.
    pub fn accept(&self) -> (call: AcceptCall)
        ensures
            call == (AcceptCall { socket: self.raw(), addrlen: SOCKADDR_STORAGE_SIZE }),
    {
        AcceptCall { socket: self.inner, addrlen: SOCKADDR_STORAGE_SIZE }
    }

    /// Connects the socket with a remote address.
    pub fn connect(&self, addr: &SocketAddr) -> (call: ConnectCall)
        ensures
            call.socket == self.raw(),
            call.name.ss_family == addr.native_family(),
            call.name.ss_data@ == addr.native_bytes(),
            call.namelen == addr.native_len(),
    {
        let (name, namelen) = get_raw_addr(addr);
        ConnectCall { socket: self.inner, name, namelen }
    }

    /// Retrieves a socket option whose value has the layout of `T`. `value`
    /// is the room for it, which the native layer overwrites.
    ///
    /// That `T` is laid out as the native layer lays this option out is the
    /// caller's to know; nothing here, and nothing in the native layer,
    /// checks it.
    pub fn get_opt<T>(&self, level: i32, name: i32, value: T) -> (call: GetOptCall<T>)
        ensures
            call == (GetOptCall {
                socket: self.raw(),
                level: level,
                name: name,
                value: value,
                optlen: vstd::layout::size_of::<T>() as i32,
            }),
    {
        GetOptCall {
            socket: self.inner,
            level,
            name,
            value,
            optlen: #[verifier::truncate] (core::mem::size_of::<T>() as i32),
        }
    }

    /// Sets a socket option to `value`, whose layout is that of `T`.
    ///
    /// That `T` is laid out as the native layer lays this option out is the
    /// caller's to know; nothing here, and nothing in the native layer,
    /// checks it.
    pub fn set_opt<T>(&self, level: i32, name: i32, value: T) -> (call: SetOptCall<T>)
        ensures
            call == (SetOptCall {
                socket: self.raw(),
                level: level,
                name: name,
                value: value,
                optlen: vstd::layout::size_of::<T>() as i32,
            }),
    {
        SetOptCall {
            socket: self.inner,
            level,
            name,
            value,
            optlen: #[verifier::truncate] (core::mem::size_of::<T>() as i32),
        }
    }

    /// Sets an I/O parameter of the socket.
    pub fn ioctl(&self, request: i32, value: u32) -> (call: IoctlCall)
        ensures
            call == (IoctlCall { socket: self.raw(), cmd: request, arg: value }),
    {
        IoctlCall { socket: self.inner, cmd: request, arg: value }
    }

    /// Sets or clears non-blocking mode.
    pub fn set_nonblocking(&self, value: bool) -> (call: IoctlCall)
        ensures
            call == (IoctlCall {
                socket: self.raw(),
                cmd: FIONBIO,
                arg: if value {
                    1u32
                } else {
                    0u32
                },
            }),
    {
        self.ioctl(FIONBIO, if value { 1 } else { 0 })
    }

    /// Stops receiving, sending or both on the socket.
    pub fn shutdown(&self, direction: ShutdownType) -> (call: ShutdownCall)
        ensures
            call == (ShutdownCall { socket: self.raw(), how: direction.how() }),
    {
        ShutdownCall { socket: self.inner, how: direction.into() }
    }

    /// Closes the socket, and tells how the close went.
    ///
    /// The native layer does not promise to bear a second close of one
    /// descriptor. So the close uses the handle up: nothing can be asked of
    /// the descriptor afterwards, and no [`Socket::teardown`] follows.
    pub fn close(self) -> (call: CloseCall)
        ensures
            call == (CloseCall { socket: self.raw() }),
    {
        CloseCall { socket: self.inner }
    }

    /// Lets the handle go: the calls that release its descriptor, a shutdown
    /// of both directions and then the close. Both are always to be made,
    /// and what they return is of no interest.
    pub fn teardown(self) -> (calls: (ShutdownCall, CloseCall))
        ensures
            calls.0 == (ShutdownCall { socket: self.raw(), how: ShutdownType::Both.how() }),
            calls.1 == (CloseCall { socket: self.raw() }),
    {
        let shutdown = self.shutdown(ShutdownType::Both);
        (shutdown, self.close())
    }

    /// Returns the underlying descriptor. Ownership is not transferred.
    pub fn as_raw_socket(&self) -> (fd: SOCKET)
        ensures
            fd == self.raw(),
    {
        self.inner
    }

    /// Takes ownership of a descriptor that came from elsewhere. The caller
    /// answers for it that no other handle owns the descriptor.
    pub fn from_raw_socket(sock: SOCKET) -> (s: Socket)
        ensures
            s.raw() == sock,
    {
        Socket { inner: sock }
    }

    /// Gives the descriptor up to the caller. The handle is gone, and with
    /// it the duty to release the descriptor.
    pub fn into_raw_socket(self) -> (fd: SOCKET)
        ensures
            fd == self.raw(),
    {
        self.inner
    }
}

} // verus!
