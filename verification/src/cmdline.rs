//! The command line: words into a role's configuration, or the message
//! that says what is wrong with them.

use vstd::prelude::*;
use vstd::string::*;
use crate::codec::FramingMode;
use crate::endpoint::{
    Attachment, ConnectOrBind, Proxy, ProxyView, Service, ServiceView, SocketKind, Sub, SubView,
};
use crate::text::text_eq;

verus! {

/// What the command line asks for: a role and its configuration.
#[derive(Debug)]
pub enum CmdlineArgs {
    Pub(Service),
    Sub(Sub),
    Req(Service),
    Rep(Service),
    Proxy(Proxy),
}

/// `CmdlineArgs` as plain mathematical values.
pub enum CmdlineView {
    Pub(ServiceView),
    Sub(SubView),
    Req(ServiceView),
    Rep(ServiceView),
    Proxy(ProxyView),
}

impl View for CmdlineArgs {
    type V = CmdlineView;

    open spec fn view(&self) -> CmdlineView {
        match self {
            CmdlineArgs::Pub(s) => CmdlineView::Pub(s@),
            CmdlineArgs::Sub(s) => CmdlineView::Sub(s@),
            CmdlineArgs::Req(s) => CmdlineView::Req(s@),
            CmdlineArgs::Rep(s) => CmdlineView::Rep(s@),
            CmdlineArgs::Proxy(p) => CmdlineView::Proxy(p@),
        }
    }
}

impl CmdlineArgs {
    /// Every framing mode in the configuration is well formed.
    pub open spec fn wf(&self) -> bool {
        match self {
            CmdlineArgs::Pub(s) => s.wf(),
            CmdlineArgs::Sub(s) => s.service.wf(),
            CmdlineArgs::Req(s) => s.wf(),
            CmdlineArgs::Rep(s) => s.wf(),
            CmdlineArgs::Proxy(_) => true,
        }
    }
}

/// The words of a command line as sequences of characters.
pub open spec fn words(args: Seq<String>) -> Seq<Seq<char>> {
    args.map_values(|a: String| a@)
}

/// The direction that a word names, or the complaint about the word.
pub open spec fn spec_connect_or_bind(s: Seq<char>) -> Result<ConnectOrBind, Seq<char>> {
    if s == "connect"@ {
        Ok(ConnectOrBind::Connect)
    } else if s == "bind"@ {
        Ok(ConnectOrBind::Bind)
    } else {
        Err("Expected 'connect' or 'bind' but got "@ + s)
    }
}

/// The socket kind that a word names, or the complaint about the word.
pub open spec fn spec_socket_kind(s: Seq<char>) -> Result<SocketKind, Seq<char>> {
    if s == "router"@ {
        Ok(SocketKind::Router)
    } else if s == "dealer"@ {
        Ok(SocketKind::Dealer)
    } else if s == "xsub"@ {
        Ok(SocketKind::XSub)
    } else if s == "xpub"@ {
        Ok(SocketKind::XPub)
    } else {
        Err("Unknown socket kind "@ + s)
    }
}

/// The direction and address that follow the optional separator, from
/// position `pos` on, with the position after them.
pub open spec fn spec_parse_attachment(
    args: Seq<Seq<char>>,
    pos: int,
    separator: Option<Seq<char>>,
    missing: Seq<char>,
) -> Result<(ServiceView, int), Seq<char>> {
    if pos >= args.len() {
        Err(missing)
    } else {
        match spec_connect_or_bind(args[pos]) {
            Err(e) => Err(e),
            Ok(connect_or_bind) => if pos + 1 >= args.len() {
                Err("Missing address"@)
            } else {
                Ok((ServiceView { separator, connect_or_bind, address: args[pos + 1] }, pos + 2))
            },
        }
    }
}

/// The service that the words from position `pos` on describe, with the
/// position after them: `--multi-message` and a non-empty separator may
/// come first, then `connect` or `bind`, then the address.
pub open spec fn spec_parse_service(args: Seq<Seq<char>>, pos: int) -> Result<
    (ServiceView, int),
    Seq<char>,
> {
    if pos >= args.len() {
        Err("Missing connect or bind or --multi-message"@)
    } else if args[pos] == "--multi-message"@ {
        if pos + 1 >= args.len() {
            Err("Missing separator"@)
        } else if args[pos + 1].len() == 0 {
            Err("Empty separator"@)
        } else {
            spec_parse_attachment(args, pos + 2, Some(args[pos + 1]), "Missing connect or bind"@)
        }
    } else {
        spec_parse_attachment(args, pos, None, "Missing connect or bind or --multi-message"@)
    }
}

/// The subscriber configuration from position `pos` on: a service, then
/// the filter.
pub open spec fn spec_parse_sub(args: Seq<Seq<char>>, pos: int) -> Result<(SubView, int), Seq<char>> {
    match spec_parse_service(args, pos) {
        Err(e) => Err(e),
        Ok((service, next)) => if next >= args.len() {
            Err("Missing filter"@)
        } else {
            Ok((SubView { service, filter: args[next] }, next + 1))
        },
    }
}

/// The proxy configuration from position `pos` on: kind and address of the
/// frontend, then of the backend.
pub open spec fn spec_parse_proxy(args: Seq<Seq<char>>, pos: int) -> Result<
    (ProxyView, int),
    Seq<char>,
> {
    if pos >= args.len() {
        Err("Missing frontend kind"@)
    } else {
        match spec_socket_kind(args[pos]) {
            Err(e) => Err(e),
            Ok(frontend_kind) => if pos + 1 >= args.len() {
                Err("Missing frontend address"@)
            } else if pos + 2 >= args.len() {
                Err("Missing backend kind"@)
            } else {
                match spec_socket_kind(args[pos + 2]) {
                    Err(e) => Err(e),
                    Ok(backend_kind) => if pos + 3 >= args.len() {
                        Err("Missing backend address"@)
                    } else {
                        Ok(
                            (
                                ProxyView {
                                    frontend_kind,
                                    frontend_address: args[pos + 1],
                                    backend_kind,
                                    backend_address: args[pos + 3],
                                },
                                pos + 4,
                            ),
                        )
                    },
                }
            },
        }
    }
}

/// The role and configuration that the words after the command name
/// describe, with the position after them.
pub open spec fn spec_parse_role(args: Seq<Seq<char>>) -> Result<(CmdlineView, int), Seq<char>> {
    if args.len() <= 1 {
        Err("Missing command"@)
    } else if args[1] == "pub"@ {
        match spec_parse_service(args, 2) {
            Err(e) => Err(e),
            Ok((s, next)) => Ok((CmdlineView::Pub(s), next)),
        }
    } else if args[1] == "sub"@ {
        match spec_parse_sub(args, 2) {
            Err(e) => Err(e),
            Ok((s, next)) => Ok((CmdlineView::Sub(s), next)),
        }
    } else if args[1] == "req"@ {
        match spec_parse_service(args, 2) {
            Err(e) => Err(e),
            Ok((s, next)) => Ok((CmdlineView::Req(s), next)),
        }
    } else if args[1] == "rep"@ {
        match spec_parse_service(args, 2) {
            Err(e) => Err(e),
            Ok((s, next)) => Ok((CmdlineView::Rep(s), next)),
        }
    } else if args[1] == "proxy"@ {
        match spec_parse_proxy(args, 2) {
            Err(e) => Err(e),
            Ok((p, next)) => Ok((CmdlineView::Proxy(p), next)),
        }
    } else {
        Err("Unknown command "@ + args[1])
    }
}

/// What a whole command line means. The first word is the program's name;
/// a word left over after the configuration is an error.
pub open spec fn spec_parse_cmdline(args: Seq<Seq<char>>) -> Result<CmdlineView, Seq<char>> {
    match spec_parse_role(args) {
        Err(e) => Err(e),
        Ok((parsed, next)) => if next < args.len() {
            Err("Useless argument "@ + args[next])
        } else {
            Ok(parsed)
        },
    }
}

/// Reads `connect` or `bind`.
pub fn connect_or_bind_of_str(s: &str) -> (r: Result<ConnectOrBind, String>)
    ensures
        match r {
            Ok(c) => spec_connect_or_bind(s@) == Ok::<ConnectOrBind, Seq<char>>(c),
            Err(e) => spec_connect_or_bind(s@) == Err::<ConnectOrBind, Seq<char>>(e@),
        },
{
    if text_eq(s, "connect") {
        Ok(ConnectOrBind::Connect)
    } else if text_eq(s, "bind") {
        Ok(ConnectOrBind::Bind)
    } else {
        Err(String::from_str("Expected 'connect' or 'bind' but got ").concat(s))
    }
}

/// Reads the socket kind of one side of a proxy.
pub fn socket_type_of_str(s: &str) -> (r: Result<SocketKind, String>)
    ensures
        match r {
            Ok(k) => spec_socket_kind(s@) == Ok::<SocketKind, Seq<char>>(k),
            Err(e) => spec_socket_kind(s@) == Err::<SocketKind, Seq<char>>(e@),
        },
{
    if text_eq(s, "router") {
        Ok(SocketKind::Router)
    } else if text_eq(s, "dealer") {
        Ok(SocketKind::Dealer)
    } else if text_eq(s, "xsub") {
        Ok(SocketKind::XSub)
    } else if text_eq(s, "xpub") {
        Ok(SocketKind::XPub)
    } else {
        Err(String::from_str("Unknown socket kind ").concat(s))
    }
}

/// Reads the direction and the address at position `pos`, for a service
/// with the given framing; `missing` is the complaint where no word is left
/// for the direction.
fn parse_attachment(args: &Vec<String>, pos: usize, framing: FramingMode, missing: &str) -> (r:
    Result<(Service, usize), String>)
    requires
        framing.wf(),
    ensures
        match r {
            Ok((service, next)) => {
                &&& spec_parse_attachment(words(args@), pos as int, framing.separator(), missing@)
                    == Ok::<(ServiceView, int), Seq<char>>((service@, next as int))
                &&& service.wf()
                &&& next <= args@.len()
            },
            Err(e) => spec_parse_attachment(words(args@), pos as int, framing.separator(), missing@)
                == Err::<(ServiceView, int), Seq<char>>(e@),
        },
{
    if pos >= args.len() {
        return Err(String::from_str(missing));
    }
    match connect_or_bind_of_str(args[pos].as_str()) {
        Err(e) => Err(e),
        Ok(connect_or_bind) => {
            if pos + 1 >= args.len() {
                Err(String::from_str("Missing address"))
            } else {
                let address = args[pos + 1].clone();
                let attachment = Attachment { mode: connect_or_bind, address };
                Ok((Service { framing, attachment }, pos + 2))
            }
        },
    }
}

/// Reads a service's configuration from the words at position `pos` on,
/// and gives it with the position of the word after it.
pub fn parse_service_args(args: &Vec<String>, pos: usize) -> (r: Result<(Service, usize), String>)
    ensures
        match r {
            Ok((service, next)) => {
                &&& spec_parse_service(words(args@), pos as int) == Ok::<
                    (ServiceView, int),
                    Seq<char>,
                >((service@, next as int))
                &&& service.wf()
                &&& next <= args@.len()
            },
            Err(e) => spec_parse_service(words(args@), pos as int) == Err::<
                (ServiceView, int),
                Seq<char>,
            >(e@),
        },
{
    if pos >= args.len() {
        return Err(String::from_str("Missing connect or bind or --multi-message"));
    }
    if text_eq(args[pos].as_str(), "--multi-message") {
        if pos + 1 >= args.len() {
            return Err(String::from_str("Missing separator"));
        }
        match FramingMode::multi(args[pos + 1].clone()) {
            None => Err(String::from_str("Empty separator")),
            Some(framing) => parse_attachment(args, pos + 2, framing, "Missing connect or bind"),
        }
    } else {
        parse_attachment(
            args,
            pos,
            FramingMode::single(),
            "Missing connect or bind or --multi-message",
        )
    }
}

/// Reads a subscriber's configuration from the words at position `pos` on.
pub fn parse_sub_args(args: &Vec<String>, pos: usize) -> (r: Result<(Sub, usize), String>)
    ensures
        match r {
            Ok((sub, next)) => {
                &&& spec_parse_sub(words(args@), pos as int) == Ok::<(SubView, int), Seq<char>>(
                    (sub@, next as int),
                )
                &&& sub.service.wf()
                &&& next <= args@.len()
            },
            Err(e) => spec_parse_sub(words(args@), pos as int) == Err::<(SubView, int), Seq<char>>(
                e@,
            ),
        },
{
    match parse_service_args(args, pos) {
        Err(e) => Err(e),
        Ok((service, next)) => {
            if next >= args.len() {
                Err(String::from_str("Missing filter"))
            } else {
                let filter = args[next].clone();
                Ok((Sub { service, filter }, next + 1))
            }
        },
    }
}

/// Reads a proxy's configuration from the words at position `pos` on.
pub fn parse_proxy_args(args: &Vec<String>, pos: usize) -> (r: Result<(Proxy, usize), String>)
    ensures
        match r {
            Ok((proxy, next)) => {
                &&& spec_parse_proxy(words(args@), pos as int) == Ok::<(ProxyView, int), Seq<char>>(
                    (proxy@, next as int),
                )
                &&& next <= args@.len()
            },
            Err(e) => spec_parse_proxy(words(args@), pos as int) == Err::<
                (ProxyView, int),
                Seq<char>,
            >(e@),
        },
{
    if pos >= args.len() {
        return Err(String::from_str("Missing frontend kind"));
    }
    let frontend_kind = match socket_type_of_str(args[pos].as_str()) {
        Err(e) => {
            return Err(e);
        },
        Ok(kind) => kind,
    };
    if pos + 1 >= args.len() {
        return Err(String::from_str("Missing frontend address"));
    }
    let frontend_address = args[pos + 1].clone();
    if pos + 2 >= args.len() {
        return Err(String::from_str("Missing backend kind"));
    }
    let backend_kind = match socket_type_of_str(args[pos + 2].as_str()) {
        Err(e) => {
            return Err(e);
        },
        Ok(kind) => kind,
    };
    if pos + 3 >= args.len() {
        return Err(String::from_str("Missing backend address"));
    }
    let backend_address = args[pos + 3].clone();
    Ok((Proxy { frontend_kind, frontend_address, backend_kind, backend_address }, pos + 4))
}

/// Reads the command and its configuration; the first word is the
/// program's name.
fn parse_role(args: &Vec<String>) -> (r: Result<(CmdlineArgs, usize), String>)
    ensures
        match r {
            Ok((parsed, next)) => {
                &&& spec_parse_role(words(args@)) == Ok::<(CmdlineView, int), Seq<char>>(
                    (parsed@, next as int),
                )
                &&& parsed.wf()
                &&& next <= args@.len()
            },
            Err(e) => spec_parse_role(words(args@)) == Err::<(CmdlineView, int), Seq<char>>(e@),
        },
{
    if args.len() <= 1 {
        return Err(String::from_str("Missing command"));
    }
    let command = args[1].as_str();
    if text_eq(command, "pub") {
        match parse_service_args(args, 2) {
            Err(e) => Err(e),
            Ok((service, next)) => Ok((CmdlineArgs::Pub(service), next)),
        }
    } else if text_eq(command, "sub") {
        match parse_sub_args(args, 2) {
            Err(e) => Err(e),
            Ok((sub, next)) => Ok((CmdlineArgs::Sub(sub), next)),
        }
    } else if text_eq(command, "req") {
        match parse_service_args(args, 2) {
            Err(e) => Err(e),
            Ok((service, next)) => Ok((CmdlineArgs::Req(service), next)),
        }
    } else if text_eq(command, "rep") {
        match parse_service_args(args, 2) {
            Err(e) => Err(e),
            Ok((service, next)) => Ok((CmdlineArgs::Rep(service), next)),
        }
    } else if text_eq(command, "proxy") {
        match parse_proxy_args(args, 2) {
            Err(e) => Err(e),
            Ok((proxy, next)) => Ok((CmdlineArgs::Proxy(proxy), next)),
        }
    } else {
        Err(String::from_str("Unknown command ").concat(command))
    }
}

/// Reads a whole command line, program name first: the role and its
/// configuration, or the message that says what is wrong.
pub fn parse_cmdline(args: &Vec<String>) -> (r: Result<CmdlineArgs, String>)
    ensures
        match r {
            Ok(parsed) => spec_parse_cmdline(words(args@)) == Ok::<CmdlineView, Seq<char>>(parsed@)
                && parsed.wf(),
            Err(e) => spec_parse_cmdline(words(args@)) == Err::<CmdlineView, Seq<char>>(e@),
        },
{
    match parse_role(args) {
        Err(e) => Err(e),
        Ok((parsed, next)) => {
            if next < args.len() {
                Err(String::from_str("Useless argument ").concat(args[next].as_str()))
            } else {
                Ok(parsed)
            }
        },
    }
}

} // verus!
