use proc_macro_api::flat::FlatTree;
use proc_macro_api::msg::{ExpandMacro, PanicMessage, Request, Response};
use proc_macro_api::process::ProcMacroProcessSrv;
use proc_macro_api::tree::{
    Delimiter, DelimiterKind, Ident, Leaf, Punct, Spacing, Subtree, TokenId, TokenTree,
};
use proc_macro_api::{
    IoError, IoErrorKind, MacroDylib, ProcMacro, ProcMacroKind, ProcMacroServer, RustCInfo,
    ServerError,
};

fn info(minor: u32) -> RustCInfo {
    RustCInfo {
        version: (1, minor, 0),
        channel: "stable".to_string(),
        commit: None,
        date: None,
        version_string: format!("rustc 1.{}.0", minor),
    }
}

fn dylib(path: &str) -> MacroDylib {
    MacroDylib::new(path.to_string(), &info(55)).unwrap()
}

fn server(id: u32) -> ProcMacroServer {
    ProcMacroServer::spawn(|| Ok(id)).unwrap()
}

fn input() -> Subtree {
    Subtree {
        delimiter: Some(Delimiter { id: TokenId(0), kind: DelimiterKind::Brace }),
        token_trees: vec![
            TokenTree::Leaf(Leaf::Ident(Ident { text: "Foo".to_string(), id: TokenId(1) })),
            TokenTree::Leaf(Leaf::Punct(Punct {
                char: ';',
                spacing: Spacing::Alone,
                id: TokenId(2),
            })),
        ],
    }
}

fn list(macros: &[(&str, ProcMacroKind)]) -> Response {
    Response::ListMacros(Ok(macros.iter().map(|(name, kind)| (name.to_string(), *kind)).collect()))
}

fn load(server: &mut ProcMacroServer, path: &str, macros: &[(&str, ProcMacroKind)]) -> Vec<ProcMacro> {
    let reply = list(macros);
    server.load_dylib(dylib(path), |_| Ok(reply)).unwrap().unwrap()
}

/// A worker that gives its input back.
fn echo(request: Request) -> Result<Response, ServerError> {
    match request {
        Request::ExpandMacro(task) => Ok(Response::ExpandMacro(Ok(task.macro_body))),
        Request::ListMacros { .. } => Ok(list(&[])),
    }
}

fn broken_pipe() -> ServerError {
    ServerError {
        message: "failed to write request".to_string(),
        io: Some(IoError { kind: IoErrorKind::BrokenPipe, message: "Broken pipe".to_string() }),
    }
}

fn unexpected_response() -> ServerError {
    ServerError { message: "unexpected response".to_string(), io: None }
}

#[test]
fn spawn_gives_a_ready_client() {
    let server = ProcMacroServer::spawn(|| Ok(7)).unwrap();
    assert!(!server.is_broken());
}

#[test]
fn spawn_reports_the_failure_to_start() {
    let failure = IoError { kind: IoErrorKind::NotFound, message: "no such file".to_string() };
    let spawned = ProcMacroServer::spawn(|| Err(failure));
    assert_eq!(
        spawned.unwrap_err(),
        IoError { kind: IoErrorKind::NotFound, message: "no such file".to_string() }
    );
}

#[test]
fn load_and_expand_against_an_echoing_worker() {
    let mut server = server(1);
    let library = MacroDylib::new("/lib/libL.so".to_string(), &info(55)).unwrap();
    let mut asked = None;
    let loaded = server.load_dylib(library, |request| {
        asked = Some(request);
        Ok(list(&[("MyDerive", ProcMacroKind::CustomDerive)]))
    });
    assert_eq!(asked, Some(Request::ListMacros { dylib_path: "/lib/libL.so".to_string() }));
    let macros = loaded.unwrap().unwrap();
    assert_eq!(macros.len(), 1);
    assert_eq!(macros[0].name(), "MyDerive");
    assert_eq!(macros[0].kind(), ProcMacroKind::CustomDerive);

    let expanded = macros[0].expand(&mut server, &input(), None, vec![], echo);
    assert_eq!(expanded, Ok(Ok(input())));
    assert!(!server.is_broken());
}

#[test]
fn load_gives_a_handle_for_each_macro_in_order() {
    let mut server = server(1);
    let macros = load(
        &mut server,
        "/l.so",
        &[
            ("b", ProcMacroKind::Attr),
            ("a", ProcMacroKind::FuncLike),
            ("b", ProcMacroKind::CustomDerive),
        ],
    );
    let seen: Vec<(&str, ProcMacroKind)> = macros.iter().map(|m| (m.name(), m.kind())).collect();
    assert_eq!(
        seen,
        vec![
            ("b", ProcMacroKind::Attr),
            ("a", ProcMacroKind::FuncLike),
            ("b", ProcMacroKind::CustomDerive)
        ]
    );
    assert!(load(&mut server, "/l.so", &[]).is_empty());
}

#[test]
fn expand_sends_name_library_attributes_and_environment() {
    let mut server = server(1);
    let macros = load(&mut server, "/lib/libL.so", &[("my_attr", ProcMacroKind::Attr)]);
    let attr = Subtree { delimiter: None, token_trees: vec![] };
    let env = vec![
        ("CARGO_PKG_NAME".to_string(), "demo".to_string()),
        ("A".to_string(), "".to_string()),
    ];
    let mut asked = None;
    let expanded = macros[0].expand(&mut server, &input(), Some(&attr), env.clone(), |request| {
        asked = Some(request);
        Ok(Response::ExpandMacro(Ok(FlatTree::new(&Subtree {
            delimiter: None,
            token_trees: vec![],
        }))))
    });
    assert_eq!(expanded, Ok(Ok(Subtree { delimiter: None, token_trees: vec![] })));
    assert_eq!(
        asked,
        Some(Request::ExpandMacro(ExpandMacro {
            macro_body: FlatTree::new(&input()),
            macro_name: "my_attr".to_string(),
            attributes: Some(FlatTree::new(&attr)),
            lib: "/lib/libL.so".to_string(),
            env,
        }))
    );
}

#[test]
fn a_panic_of_the_macro_is_data() {
    let mut server = server(1);
    let macros = load(&mut server, "/l.so", &[("boom", ProcMacroKind::FuncLike)]);
    let expanded = macros[0].expand(&mut server, &input(), None, vec![], |_| {
        Ok(Response::ExpandMacro(Err(PanicMessage("index out of bounds".to_string()))))
    });
    assert_eq!(expanded, Ok(Err(PanicMessage("index out of bounds".to_string()))));
    assert!(!server.is_broken());
    assert_eq!(macros[0].expand(&mut server, &input(), None, vec![], echo), Ok(Ok(input())));
}

#[test]
fn a_library_that_fails_to_load_leaves_the_worker_ready() {
    let mut server = server(1);
    let loaded = server.load_dylib(dylib("/bad.so"), |_| {
        Ok(Response::ListMacros(Err("Cannot create expander for /bad.so".to_string())))
    });
    assert_eq!(loaded.ok(), Some(Err("Cannot create expander for /bad.so".to_string())));
    assert!(!server.is_broken());
    assert_eq!(load(&mut server, "/good.so", &[("m", ProcMacroKind::Attr)]).len(), 1);
}

#[test]
fn a_broken_channel_is_reported_ever_after() {
    let mut server = server(1);
    let macros = load(&mut server, "/l.so", &[("m", ProcMacroKind::FuncLike)]);
    let expanded = macros[0].expand(&mut server, &input(), None, vec![], |_| Err(broken_pipe()));
    assert_eq!(expanded, Err(broken_pipe()));
    assert!(server.is_broken());

    for _ in 0..3 {
        let mut sent = false;
        let expanded = macros[0].expand(&mut server, &input(), None, vec![], |request| {
            sent = true;
            echo(request)
        });
        assert!(!sent);
        let error = expanded.unwrap_err();
        assert!(error.io.is_some());
        assert_eq!(error, broken_pipe());

        let mut sent = false;
        let loaded = server.load_dylib(dylib("/other.so"), |_| {
            sent = true;
            Ok(list(&[]))
        });
        assert!(!sent);
        let error = loaded.err().unwrap();
        assert!(error.io.is_some());
        assert_eq!(error, broken_pipe());
        assert!(server.is_broken());
    }
}

#[test]
fn a_reply_of_the_other_kind_is_a_server_error() {
    let mut server = server(1);
    let macros = load(&mut server, "/l.so", &[("m", ProcMacroKind::FuncLike)]);
    let expanded = macros[0].expand(&mut server, &input(), None, vec![], |_| Ok(list(&[])));
    assert_eq!(expanded, Err(unexpected_response()));
    assert!(server.is_broken());
    assert_eq!(
        macros[0].expand(&mut server, &input(), None, vec![], echo),
        Err(unexpected_response())
    );

    let mut server = ProcMacroServer::spawn(|| Ok(2)).unwrap();
    let loaded = server.load_dylib(dylib("/l.so"), |_| {
        Ok(Response::ExpandMacro(Ok(FlatTree::new(&input()))))
    });
    assert_eq!(loaded.err(), Some(unexpected_response()));
    assert!(server.is_broken());
}

#[test]
fn a_reply_with_a_malformed_tree_is_a_server_error() {
    let mut server = server(1);
    let macros = load(&mut server, "/l.so", &[("m", ProcMacroKind::FuncLike)]);
    let expanded = macros[0].expand(&mut server, &input(), None, vec![], |_| {
        Ok(Response::ExpandMacro(Ok(FlatTree { words: vec![0, 0, 0, 1], text: vec![] })))
    });
    assert_eq!(
        expanded,
        Err(ServerError { message: "malformed token tree".to_string(), io: None })
    );
    assert!(server.is_broken());
}

#[test]
fn handles_of_two_clients_are_never_equal() {
    let mut first = server(1);
    let mut second = server(2);
    let of_first = load(&mut first, "/l.so", &[("m", ProcMacroKind::Attr)]);
    let of_second = load(&mut second, "/l.so", &[("m", ProcMacroKind::Attr)]);
    assert_eq!(of_first[0].name(), of_second[0].name());
    assert_eq!(of_first[0].kind(), of_second[0].kind());
    assert_ne!(of_first[0], of_second[0]);
}

#[test]
fn handles_of_one_client_are_equal_where_all_agrees() {
    let mut server = server(1);
    let macros = load(
        &mut server,
        "/l.so",
        &[("m", ProcMacroKind::Attr), ("m", ProcMacroKind::Attr), ("m", ProcMacroKind::FuncLike), ("n", ProcMacroKind::Attr)],
    );
    assert_eq!(macros[0], macros[1]);
    assert_eq!(macros[0], macros[0].clone());
    assert_ne!(macros[0], macros[2]);
    assert_ne!(macros[0], macros[3]);
    let elsewhere = load(&mut server, "/other.so", &[("m", ProcMacroKind::Attr)]);
    assert_ne!(macros[0], elsewhere[0]);
    let again = load(&mut server, "/l.so", &[("m", ProcMacroKind::Attr)]);
    assert_eq!(macros[0], again[0]);
}

#[test]
fn a_macro_is_not_expanded_on_another_worker() {
    let mut first = server(1);
    let mut second = server(2);
    let macros = load(&mut first, "/l.so", &[("m", ProcMacroKind::Attr)]);
    let mut sent = false;
    let expanded = macros[0].expand(&mut second, &input(), None, vec![], |request| {
        sent = true;
        echo(request)
    });
    assert!(!sent);
    assert_eq!(
        expanded,
        Err(ServerError { message: "macro of another worker".to_string(), io: None })
    );
    assert!(!second.is_broken());
}

#[test]
fn worker_sends_one_request_per_task() {
    let mut worker = ProcMacroProcessSrv::run(|| Ok(3)).unwrap();
    assert_eq!(worker.id(), 3);
    let mut count = 0;
    let listing = worker.find_proc_macros("/l.so", |request| {
        count += 1;
        assert_eq!(request, Request::ListMacros { dylib_path: "/l.so".to_string() });
        Ok(list(&[("m", ProcMacroKind::CustomDerive)]))
    });
    assert_eq!(count, 1);
    assert_eq!(listing.ok(), Some(Ok(vec![("m".to_string(), ProcMacroKind::CustomDerive)])));
    let reply = worker.send_task(Request::ListMacros { dylib_path: "/l.so".to_string() }, echo);
    assert_eq!(reply.ok(), Some(list(&[])));
    assert!(!worker.is_broken());
}

#[test]
fn worker_keeps_its_first_failure() {
    let mut worker = ProcMacroProcessSrv::run(|| Ok(3)).unwrap();
    worker.fail(&broken_pipe());
    assert!(worker.is_broken());
    worker.fail(&unexpected_response());
    let reply = worker.send_task(Request::ListMacros { dylib_path: "/l.so".to_string() }, echo);
    assert_eq!(reply.err(), Some(broken_pipe()));
}

#[test]
fn server_error_reads_as_message_and_cause() {
    assert_eq!(broken_pipe().to_string(), "failed to write request: Broken pipe");
    assert_eq!(unexpected_response().to_string(), "unexpected response");
    assert_eq!(ServerError::protocol("x"), ServerError { message: "x".to_string(), io: None });
    assert_eq!(broken_pipe().clone(), broken_pipe());
}

#[test]
fn a_panic_message_becomes_a_macro_panic() {
    let panic = PanicMessage("boom".to_string()).into_macro_panic();
    assert_eq!(panic.message, "boom");
}
