use vstd::prelude::*;
use vstd::string::*;
use crate::decimal::{decimal_text, port_text};
use crate::error::{Error, ErrorView};

verus! {

/// The bound on one connection attempt, in seconds.
pub const TIME_OUT_SECS: u64 = 5;

/// One address that a host name resolved to.
#[derive(Debug, Clone, PartialEq)]
pub struct ResolvedAddress {
    /// The IP address in text form.
    pub ip: String,
    pub port: u16,
}

/// A [`ResolvedAddress`] with its string as a character sequence.
pub struct ResolvedAddressView {
    pub ip: Seq<char>,
    pub port: u16,
}

impl View for ResolvedAddress {
    type V = ResolvedAddressView;

    open spec fn view(&self) -> ResolvedAddressView {
        ResolvedAddressView { ip: self.ip@, port: self.port }
    }
}

/// The text that name resolution is asked about: the host, a colon and the
/// port in decimal.
pub open spec fn resolution_query(host: Seq<char>, port: u16) -> Seq<char> {
    host + ":"@ + decimal_text(port as nat)
}

/// Spells the question for name resolution.
pub fn socket_query(url: &String, port: u16) -> (query: String)
    ensures
        query@ == resolution_query(url@, port),
{
    url.clone().concat(":").concat(port_text(port).as_str())
}

/// Judges what name resolution found for `url` and `port`: the candidates in
/// the order they came, or an error where resolution failed (`None`) or gave
/// no address at all.
pub fn get_ip_address(url: String, port: u16, found: Option<Vec<ResolvedAddress>>) -> (result:
    Result<Vec<ResolvedAddress>, Error>)
    ensures
        match found {
            Some(addresses) if addresses.len() > 0 => result == Ok::<_, Error>(addresses),
            _ => result matches Err(error) && error@ == ErrorView::GetIpFromAddrs(url@, port),
        },
{
    match found {
        Some(addresses) => {
            if addresses.len() > 0 {
                Ok(addresses)
            } else {
                Err(Error::GetIpFromAddrs((url, port)))
            }
        },
        None => Err(Error::GetIpFromAddrs((url, port))),
    }
}

/// Judges one connection attempt to `address`: the stream if there is one,
/// else the error that names the address.
pub fn open_connection<S>(address: &ResolvedAddress, attempt: Option<S>) -> (result: Result<
    S,
    Error,
>)
    ensures
        match attempt {
            Some(stream) => result == Ok::<S, Error>(stream),
            None => result matches Err(error) && error@ == ErrorView::ConnectToServer(
                address.ip@,
                address.port,
            ),
        },
{
    match attempt {
        Some(stream) => Ok(stream),
        None => Err(Error::ConnectToServer((address.ip.clone(), address.port))),
    }
}

/// Judges one write of `msg`: `written` is the number of bytes that the
/// transport took, or `None` where the write failed. Anything but the whole
/// message is an error; the rest is never sent again.
pub fn write_to_stream(msg: Vec<u8>, written: Option<usize>) -> (result: Result<(), Error>)
    ensures
        written is None ==> result == Err::<(), Error>(Error::WriteError),
        written matches Some(size) && size != msg.len() ==> result == Err::<(), Error>(
            Error::PartialBufferWriten,
        ),
        written == Some(msg.len()) ==> result == Ok::<(), Error>(()),
{
    match written {
        None => Err(Error::WriteError),
        Some(size) => {
            if size != msg.len() {
                return Err(Error::PartialBufferWriten);
            }
            Ok(())
        },
    }
}

/// Judges the read of a whole response: the bytes read until the peer closed
/// the stream, or a read error where the transport failed (`None`).
pub fn read_from_stream(read: Option<Vec<u8>>) -> (result: Result<Vec<u8>, Error>)
    ensures
        match read {
            Some(bytes) => result == Ok::<Vec<u8>, Error>(bytes),
            None => result == Err::<Vec<u8>, Error>(Error::ReadError),
        },
{
    match read {
        Some(bytes) => Ok(bytes),
        None => Err(Error::ReadError),
    }
}

} // verus!
