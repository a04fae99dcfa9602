use zmq_lines::cmdline::{
    connect_or_bind_of_str, parse_cmdline, parse_proxy_args, parse_service_args, parse_sub_args,
    socket_type_of_str, CmdlineArgs,
};
use zmq_lines::codec::FramingMode;
use zmq_lines::endpoint::{attach_outcome, AttachError, ConnectOrBind, SocketKind};
use zmq_lines::text::{chars_of, text_eq};

fn args(words: &[&str]) -> Vec<String> {
    words.iter().map(|w| w.to_string()).collect()
}

fn error_of(words: &[&str]) -> String {
    match parse_cmdline(&args(words)) {
        Ok(_) => panic!("expected an error"),
        Err(e) => e,
    }
}

#[test]
fn connect_or_bind_words() {
    assert_eq!(connect_or_bind_of_str("connect"), Ok(ConnectOrBind::Connect));
    assert_eq!(connect_or_bind_of_str("bind"), Ok(ConnectOrBind::Bind));
    assert_eq!(
        connect_or_bind_of_str("listen"),
        Err("Expected 'connect' or 'bind' but got listen".to_string())
    );
    assert_eq!(
        connect_or_bind_of_str("Connect"),
        Err("Expected 'connect' or 'bind' but got Connect".to_string())
    );
    assert_eq!(
        connect_or_bind_of_str(""),
        Err("Expected 'connect' or 'bind' but got ".to_string())
    );
}

#[test]
fn socket_kind_words() {
    assert_eq!(socket_type_of_str("router"), Ok(SocketKind::Router));
    assert_eq!(socket_type_of_str("dealer"), Ok(SocketKind::Dealer));
    assert_eq!(socket_type_of_str("xsub"), Ok(SocketKind::XSub));
    assert_eq!(socket_type_of_str("xpub"), Ok(SocketKind::XPub));
    assert_eq!(socket_type_of_str("pub"), Err("Unknown socket kind pub".to_string()));
}

#[test]
fn parse_pub_connect() {
    match parse_cmdline(&args(&["zmq", "pub", "connect", "tcp://localhost:5555"])) {
        Ok(CmdlineArgs::Pub(service)) => {
            assert!(matches!(service.framing, FramingMode::SingleFrame));
            assert_eq!(service.attachment.mode, ConnectOrBind::Connect);
            assert_eq!(service.attachment.address, "tcp://localhost:5555");
        }
        other => panic!("unexpected {:?}", other),
    }
}

#[test]
fn parse_req_and_rep_with_separator() {
    match parse_cmdline(&args(&["zmq", "req", "--multi-message", ";", "bind", "ipc:///tmp/x"])) {
        Ok(CmdlineArgs::Req(service)) => {
            match service.framing {
                FramingMode::MultiFrame(sep) => assert_eq!(sep, ";"),
                FramingMode::SingleFrame => panic!("expected a separator"),
            }
            assert_eq!(service.attachment.mode, ConnectOrBind::Bind);
            assert_eq!(service.attachment.address, "ipc:///tmp/x");
        }
        other => panic!("unexpected {:?}", other),
    }
    assert!(matches!(
        parse_cmdline(&args(&["zmq", "rep", "bind", "tcp://*:1"])),
        Ok(CmdlineArgs::Rep(_))
    ));
}

#[test]
fn parse_sub_with_filter() {
    match parse_cmdline(&args(&["zmq", "sub", "connect", "tcp://h:1", "news"])) {
        Ok(CmdlineArgs::Sub(sub)) => {
            assert_eq!(sub.filter, "news");
            assert_eq!(sub.service.attachment.address, "tcp://h:1");
            assert_eq!(sub.service.attachment.mode, ConnectOrBind::Connect);
        }
        other => panic!("unexpected {:?}", other),
    }
    assert_eq!(error_of(&["zmq", "sub", "connect", "tcp://h:1"]), "Missing filter");
}

#[test]
fn parse_proxy() {
    match parse_cmdline(&args(&["zmq", "proxy", "xsub", "tcp://*:1", "xpub", "tcp://*:2"])) {
        Ok(CmdlineArgs::Proxy(proxy)) => {
            assert_eq!(proxy.frontend_kind, SocketKind::XSub);
            assert_eq!(proxy.frontend_address, "tcp://*:1");
            assert_eq!(proxy.backend_kind, SocketKind::XPub);
            assert_eq!(proxy.backend_address, "tcp://*:2");
        }
        other => panic!("unexpected {:?}", other),
    }
}

#[test]
fn parse_proxy_errors() {
    assert_eq!(error_of(&["zmq", "proxy"]), "Missing frontend kind");
    assert_eq!(error_of(&["zmq", "proxy", "pub"]), "Unknown socket kind pub");
    assert_eq!(error_of(&["zmq", "proxy", "router"]), "Missing frontend address");
    assert_eq!(error_of(&["zmq", "proxy", "router", "a"]), "Missing backend kind");
    assert_eq!(error_of(&["zmq", "proxy", "router", "a", "sub"]), "Unknown socket kind sub");
    assert_eq!(error_of(&["zmq", "proxy", "router", "a", "dealer"]), "Missing backend address");
}

#[test]
fn parse_service_errors() {
    assert_eq!(error_of(&["zmq", "pub"]), "Missing connect or bind or --multi-message");
    assert_eq!(error_of(&["zmq", "pub", "--multi-message"]), "Missing separator");
    assert_eq!(error_of(&["zmq", "pub", "--multi-message", ""]), "Empty separator");
    assert_eq!(error_of(&["zmq", "pub", "--multi-message", ","]), "Missing connect or bind");
    assert_eq!(
        error_of(&["zmq", "pub", "--multi-message", ",", "x"]),
        "Expected 'connect' or 'bind' but got x"
    );
    assert_eq!(error_of(&["zmq", "pub", "--multi-message", ",", "bind"]), "Missing address");
    assert_eq!(error_of(&["zmq", "pub", "connect"]), "Missing address");
    assert_eq!(error_of(&["zmq", "pub", "attach", "a"]), "Expected 'connect' or 'bind' but got attach");
}

#[test]
fn parse_command_errors() {
    assert_eq!(error_of(&["zmq"]), "Missing command");
    assert_eq!(error_of(&[]), "Missing command");
    assert_eq!(error_of(&["zmq", "push", "connect", "a"]), "Unknown command push");
    assert_eq!(error_of(&["zmq", "pub", "connect", "a", "b"]), "Useless argument b");
    assert_eq!(error_of(&["zmq", "sub", "connect", "a", "f", "g"]), "Useless argument g");
}

#[test]
fn parsers_give_the_next_position() {
    let words = args(&["--multi-message", ",", "connect", "addr", "filter", "rest"]);
    let (service, next) = parse_service_args(&words, 0).unwrap();
    assert_eq!(next, 4);
    assert_eq!(service.attachment.address, "addr");
    let (sub, next) = parse_sub_args(&words, 0).unwrap();
    assert_eq!(next, 5);
    assert_eq!(sub.filter, "filter");
    let (service, next) = parse_service_args(&words, 2).unwrap();
    assert_eq!(next, 4);
    assert!(matches!(service.framing, FramingMode::SingleFrame));
    assert_eq!(
        parse_service_args(&words, 6).err(),
        Some("Missing connect or bind or --multi-message".to_string())
    );
    let words = args(&["x", "dealer", "a", "router", "b"]);
    let (proxy, next) = parse_proxy_args(&words, 1).unwrap();
    assert_eq!(next, 5);
    assert_eq!(proxy.frontend_kind, SocketKind::Dealer);
    assert_eq!(proxy.backend_kind, SocketKind::Router);
}

#[test]
fn attach_error_names_the_operation() {
    let e = AttachError::new(ConnectOrBind::Connect, "Invalid argument".to_string());
    assert_eq!(e.describe(), "Unable to connect: Invalid argument");
    let e = AttachError::new(ConnectOrBind::Bind, "Address already in use".to_string());
    assert_eq!(e.describe(), "Unable to bind: Address already in use");
}

#[test]
fn attach_outcome_keeps_success_and_tags_failure() {
    assert!(attach_outcome(ConnectOrBind::Bind, Ok(())).is_ok());
    let e = attach_outcome(ConnectOrBind::Bind, Err("no".to_string())).unwrap_err();
    assert_eq!(e.operation, ConnectOrBind::Bind);
    assert_eq!(e.message, "no");
    assert_eq!(e.describe(), "Unable to bind: no");
}

#[test]
fn text_helpers() {
    assert_eq!(chars_of("héy"), vec!['h', 'é', 'y']);
    assert_eq!(chars_of(""), Vec::<char>::new());
    assert!(text_eq("abc", "abc"));
    assert!(!text_eq("abc", "abd"));
    assert!(!text_eq("abc", "ab"));
    assert!(text_eq("", ""));
}
