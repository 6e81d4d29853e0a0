use vstd::prelude::*;
use vstd::string::*;
use crate::decimal::{decimal_text, port_text};

verus! {

/// Everything that can end a fetch early.
#[derive(Debug, PartialEq)]
pub enum Error {
    /// Name resolution of `(host, port)` failed or gave no address.
    GetIpFromAddrs((String, u16)),
    /// No connection could be opened to `(ip, port)`.
    ConnectToServer((String, u16)),
    /// The transport reported a failed write.
    WriteError,
    /// The transport accepted fewer bytes than the request line holds.
    PartialBufferWriten,
    /// The transport reported a failed read.
    ReadError,
    /// The address could not be understood.
    ParseUrl(String),
    /// No more specific error was recorded.
    UndefinedError,
}

/// An [`Error`] with its strings as character sequences.
pub enum ErrorView {
    GetIpFromAddrs(Seq<char>, u16),
    ConnectToServer(Seq<char>, u16),
    WriteError,
    PartialBufferWriten,
    ReadError,
    ParseUrl(Seq<char>),
    UndefinedError,
}

impl View for Error {
    type V = ErrorView;

    open spec fn view(&self) -> ErrorView {
        match *self {
            Error::GetIpFromAddrs((host, port)) => ErrorView::GetIpFromAddrs(host@, port),
            Error::ConnectToServer((ip, port)) => ErrorView::ConnectToServer(ip@, port),
            Error::WriteError => ErrorView::WriteError,
            Error::PartialBufferWriten => ErrorView::PartialBufferWriten,
            Error::ReadError => ErrorView::ReadError,
            Error::ParseUrl(address) => ErrorView::ParseUrl(address@),
            Error::UndefinedError => ErrorView::UndefinedError,
        }
    }
}

/// The text that describes an error to a person.
pub open spec fn message_text(error: ErrorView) -> Seq<char> {
    match error {
        ErrorView::GetIpFromAddrs(host, port) => "Parsing url failed ip:"@ + host + " port:"@
            + decimal_text(port as nat),
        ErrorView::ConnectToServer(ip, port) => "connect to server failed ip:"@ + ip + " port:"@
            + decimal_text(port as nat),
        ErrorView::WriteError => "write to server failed"@,
        ErrorView::PartialBufferWriten => "not all buffer sent to server"@,
        ErrorView::ReadError => "reading from stream failed"@,
        ErrorView::ParseUrl(address) => "parsing url failed URL:"@ + address,
        ErrorView::UndefinedError => "undefined error"@,
    }
}

/// `head`, then `name`, then `" port:"` and the port in decimal.
fn with_endpoint(head: &str, name: &String, port: u16) -> (text: String)
    ensures
        text@ == head@ + name@ + " port:"@ + decimal_text(port as nat),
{
    String::from_str(head).concat(name.as_str()).concat(" port:").concat(port_text(port).as_str())
}

impl Error {
    /// Describes the error to a person.
    pub fn message(&self) -> (text: String)
        ensures
            text@ == message_text(self@),
    {
        match self {
            Error::GetIpFromAddrs((host, port)) => with_endpoint(
                "Parsing url failed ip:",
                host,
                *port,
            ),
            Error::ConnectToServer((ip, port)) => with_endpoint(
                "connect to server failed ip:",
                ip,
                *port,
            ),
            Error::WriteError => String::from_str("write to server failed"),
            Error::PartialBufferWriten => String::from_str("not all buffer sent to server"),
            Error::ReadError => String::from_str("reading from stream failed"),
            Error::ParseUrl(address) => String::from_str("parsing url failed URL:").concat(
                address.as_str(),
            ),
            Error::UndefinedError => String::from_str("undefined error"),
        }
    }
}

} // verus!
