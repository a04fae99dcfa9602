//! What an endpoint is configured with: how it joins an address, how it
//! frames lines, and what is reported when joining fails.

use vstd::prelude::*;
use vstd::string::*;
use crate::codec::FramingMode;

verus! {

/// The direction in which a socket joins an address.
#[derive(Debug, Clone, Copy, PartialEq, Eq, Structural)]
pub enum ConnectOrBind {
    Connect,
    Bind,
}

/// The socket kind of one side of a proxy.
#[derive(Debug, Clone, Copy, PartialEq, Eq, Structural)]
pub enum SocketKind {
    Router,
    Dealer,
    XSub,
    XPub,
}

/// How a socket joins the network: the direction and the address.
#[derive(Debug)]
pub struct Attachment {
    pub mode: ConnectOrBind,
    pub address: String,
}

/// One socket's configuration: its framing and its attachment.
#[derive(Debug)]
pub struct Service {
    pub framing: FramingMode,
    pub attachment: Attachment,
}

/// `Service` as plain mathematical values.
pub struct ServiceView {
    pub separator: Option<Seq<char>>,
    pub connect_or_bind: ConnectOrBind,
    pub address: Seq<char>,
}

impl View for Service {
    type V = ServiceView;

    open spec fn view(&self) -> ServiceView {
        ServiceView {
            separator: self.framing.separator(),
            connect_or_bind: self.attachment.mode,
            address: self.attachment.address@,
        }
    }
}

impl Service {
    /// The framing mode is well formed.
    pub open spec fn wf(&self) -> bool {
        self.framing.wf()
    }
}

/// A subscriber's configuration: a service and the subscription filter.
#[derive(Debug)]
pub struct Sub {
    pub service: Service,
    pub filter: String,
}

/// `Sub` as plain mathematical values.
pub struct SubView {
    pub service: ServiceView,
    pub filter: Seq<char>,
}

impl View for Sub {
    type V = SubView;

    open spec fn view(&self) -> SubView {
        SubView { service: self.service@, filter: self.filter@ }
    }
}

/// A proxy's configuration: kind and address of each side.
#[derive(Debug)]
pub struct Proxy {
    pub frontend_kind: SocketKind,
    pub frontend_address: String,
    pub backend_kind: SocketKind,
    pub backend_address: String,
}

/// `Proxy` as plain mathematical values.
pub struct ProxyView {
    pub frontend_kind: SocketKind,
    pub frontend_address: Seq<char>,
    pub backend_kind: SocketKind,
    pub backend_address: Seq<char>,
}

impl View for Proxy {
    type V = ProxyView;

    open spec fn view(&self) -> ProxyView {
        ProxyView {
            frontend_kind: self.frontend_kind,
            frontend_address: self.frontend_address@,
            backend_kind: self.backend_kind,
            backend_address: self.backend_address@,
        }
    }
}

/// A failed attempt to join an address: which operation failed, and the
/// transport's own message.
#[derive(Debug)]
pub struct AttachError {
    pub operation: ConnectOrBind,
    pub message: String,
}

/// The report of a failed attachment: the operation, then the transport's
/// message.
pub open spec fn spec_describe(operation: ConnectOrBind, message: Seq<char>) -> Seq<char> {
    match operation {
        ConnectOrBind::Connect => "Unable to connect: "@ + message,
        ConnectOrBind::Bind => "Unable to bind: "@ + message,
    }
}

impl AttachError {
    /// The error of `operation` failing with the transport's `message`.
    pub fn new(operation: ConnectOrBind, message: String) -> (e: AttachError)
        ensures
            e.operation == operation,
            e.message@ == message@,
    {
        AttachError { operation, message }
    }

    /// The line to report for this error.
    pub fn describe(&self) -> (out: String)
        ensures
            out@ == spec_describe(self.operation, self.message@),
    {
        match self.operation {
            ConnectOrBind::Connect => String::from_str("Unable to connect: ").concat(
                self.message.as_str(),
            ),
            ConnectOrBind::Bind => String::from_str("Unable to bind: ").concat(
                self.message.as_str(),
            ),
        }
    }
}

/// What an attempt to join an address amounts to, given what the
/// transport answered: success as it is, a failure with the operation that
/// was tried and the transport's message.
pub fn attach_outcome(operation: ConnectOrBind, answer: Result<(), String>) -> (r: Result<
    (),
    AttachError,
>)
    ensures
        answer is Ok <==> r is Ok,
        answer matches Err(message) ==> (r matches Err(e) && e.operation == operation && e.message@
            == message@),
{
    match answer {
        Ok(()) => Ok(()),
        Err(message) => Err(AttachError::new(operation, message)),
    }
}

} // verus!
