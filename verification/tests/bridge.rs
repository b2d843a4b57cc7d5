use raw_socket::error::{counted, descriptor, status, transferred, SocketError};
use raw_socket::winapi::{INVALID_SOCKET, SOCKET_ERROR, WSAESHUTDOWN};

#[test]
fn native_constants() {
    assert_eq!(INVALID_SOCKET, !0usize);
    assert_eq!(SOCKET_ERROR, -1);
    assert_eq!(WSAESHUTDOWN, 10058);
    assert_eq!(raw_socket::winapi::AF_INET, 2);
    assert_eq!(raw_socket::winapi::AF_INET6, 23);
    assert_eq!(raw_socket::winapi::FD_SETSIZE, 64);
    assert_eq!(raw_socket::winapi::SOCKADDR_STORAGE_SIZE, 128);
    assert_eq!(raw_socket::winapi::SOCKADDR_IN_SIZE, 16);
    assert_eq!(raw_socket::winapi::SOCKADDR_IN6_SIZE, 28);
}

#[test]
fn family_type_and_protocol_constants() {
    assert_eq!(raw_socket::Family::UNSPECIFIED, 0);
    assert_eq!(raw_socket::Family::IPV4, 2);
    assert_eq!(raw_socket::Family::IPV6, 23);
    assert_eq!(raw_socket::Family::IRDA, 26);
    assert_eq!(raw_socket::Family::BTH, 32);
    assert_eq!(raw_socket::Type::STREAM, 1);
    assert_eq!(raw_socket::Type::DATAGRAM, 2);
    assert_eq!(raw_socket::Type::RAW, 3);
    assert_eq!(raw_socket::Type::RDM, 4);
    assert_eq!(raw_socket::Type::SEQPACKET, 5);
    assert_eq!(raw_socket::Protocol::NONE, 0);
    assert_eq!(raw_socket::Protocol::ICMP, 1);
    assert_eq!(raw_socket::Protocol::TCP, 6);
    assert_eq!(raw_socket::Protocol::UDP, 17);
    assert_eq!(raw_socket::Protocol::ICMPV6, 58);
}

#[test]
fn status_zero_is_success() {
    assert_eq!(status(0, 0), Ok(()));
    assert_eq!(status(0, 10048), Ok(()));
}

#[test]
fn status_non_zero_is_the_os_error() {
    assert_eq!(status(-1, 10048), Err(SocketError::OsError(10048)));
    assert_eq!(status(1, 10022), Err(SocketError::OsError(10022)));
    assert_eq!(status(i32::MIN, -7), Err(SocketError::OsError(-7)));
}

#[test]
fn transfer_count_is_passed_on() {
    assert_eq!(transferred(0, 0), Ok(0));
    assert_eq!(transferred(1, 0), Ok(1));
    assert_eq!(transferred(1500, 10058), Ok(1500));
    assert_eq!(transferred(i32::MAX, 0), Ok(i32::MAX as usize));
}

#[test]
fn transfer_after_shutdown_is_zero_bytes() {
    assert_eq!(transferred(-1, 10058), Ok(0));
    assert_eq!(transferred(SOCKET_ERROR, WSAESHUTDOWN), Ok(0));
}

#[test]
fn transfer_failure_is_the_os_error() {
    assert_eq!(transferred(-1, 10054), Err(SocketError::OsError(10054)));
    assert_eq!(transferred(-1, 10035), Err(SocketError::OsError(10035)));
    assert_eq!(transferred(-1, 0), Err(SocketError::OsError(0)));
    assert_eq!(transferred(-1, 10057), Err(SocketError::OsError(10057)));
    assert_eq!(transferred(-1, 10059), Err(SocketError::OsError(10059)));
}

#[test]
fn transfer_of_another_negative_value_is_cast() {
    assert_eq!(transferred(-2, 10058), Ok(-2i32 as usize));
    assert_eq!(transferred(i32::MIN, 0), Ok(i32::MIN as usize));
}

#[test]
fn descriptor_or_os_error() {
    assert_eq!(descriptor(0, 5), Ok(0));
    assert_eq!(descriptor(348, 0), Ok(348));
    assert_eq!(descriptor(usize::MAX - 1, 0), Ok(usize::MAX - 1));
    assert_eq!(descriptor(INVALID_SOCKET, 10024), Err(SocketError::OsError(10024)));
}

#[test]
fn count_or_os_error() {
    assert_eq!(counted(0, 10022), Ok(0));
    assert_eq!(counted(3, 0), Ok(3));
    assert_eq!(counted(-2, 0), Ok(-2));
    assert_eq!(counted(-1, 10022), Err(SocketError::OsError(10022)));
}

#[test]
fn raw_os_error_of_each_variant() {
    assert_eq!(SocketError::OsError(10048).raw_os_error(), Some(10048));
    assert_eq!(SocketError::InvalidInput.raw_os_error(), None);
}
