use hapi_rs::asset::AssetCall;
use hapi_rs::errors::{HapiError, HapiResult, Kind};
use hapi_rs::marshal::{Reply, Step};
use hapi_rs::node::{NodeCall, NodeHandle};
use hapi_rs::session::{
    CookOptions, CookResult, CookStep, NativeSession, PackedPrimInstancingMode, Session,
    SessionCall, SessionKind, SessionOptions, State, StatusType, StatusVerbosity, Teardown,
};

/// A stand-in for the engine. It keeps a log of the calls it gets.
struct Engine {
    log: Vec<&'static str>,
    initialized: bool,
    open: bool,
    fail_cleanup: bool,
    states: Vec<State>,
    status: &'static str,
}

impl Engine {
    fn new() -> Engine {
        Engine {
            log: Vec::new(),
            initialized: false,
            open: false,
            fail_cleanup: false,
            states: Vec::new(),
            status: "",
        }
    }

    fn count(&self, name: &str) -> usize {
        self.log.iter().filter(|n| **n == name).count()
    }

    fn connect(&mut self, call: &SessionCall) -> (SessionKind, i32, i64) {
        match call {
            SessionCall::CreateInProcessSession => {
                self.log.push("create");
                self.open = true;
                (SessionKind::InProcess, 0, 1)
            }
            SessionCall::CreateThriftNamedPipeSession { .. } => {
                self.log.push("create");
                self.open = true;
                (SessionKind::NamedPipe, 0, 2)
            }
            SessionCall::CreateThriftSocketSession { .. } => {
                self.log.push("create");
                (SessionKind::Socket, 1, 0)
            }
            _ => panic!("not a connect call"),
        }
    }

    fn call(&mut self, call: &SessionCall) -> i32 {
        match call {
            SessionCall::Initialize { .. } => {
                self.log.push("initialize");
                if !self.open {
                    400
                } else if self.initialized {
                    2
                } else {
                    self.initialized = true;
                    0
                }
            }
            SessionCall::Cleanup { .. } => {
                self.log.push("cleanup");
                if self.fail_cleanup {
                    1
                } else {
                    self.initialized = false;
                    0
                }
            }
            SessionCall::CloseSession { .. } => {
                self.log.push("close");
                self.open = false;
                0
            }
            SessionCall::Interrupt { .. } => {
                self.log.push("interrupt");
                0
            }
            _ => panic!("call not modelled"),
        }
    }

    fn cook_state(&mut self, call: &SessionCall) -> (i32, State) {
        match call {
            SessionCall::GetStatus { status_type: StatusType::CookState, .. } => {
                self.log.push("status");
                (0, self.states.remove(0))
            }
            _ => panic!("not a status call"),
        }
    }

    fn text(&mut self, call: &SessionCall) -> Reply<u8> {
        match call {
            SessionCall::GetStatusStringBufLength { .. } | SessionCall::GetConnectionErrorLength => {
                self.log.push("length");
                let length = if self.status.is_empty() { 0 } else { self.status.len() as i32 + 1 };
                Reply::Size { code: 0, length }
            }
            SessionCall::GetStatusString { length, .. } | SessionCall::GetConnectionError { length, .. } => {
                self.log.push("fetch");
                let mut bytes = self.status.as_bytes().to_vec();
                bytes.push(0);
                assert_eq!(bytes.len(), *length as usize);
                Reply::Data { code: 0, length: *length, values: bytes }
            }
            _ => panic!("not a text call"),
        }
    }
}

fn connect(engine: &mut Engine) -> Session {
    let (kind, code, id) = engine.connect(&Session::new_in_process());
    Session::connect(kind, code, id).unwrap()
}

fn initialize(engine: &mut Engine, session: &mut Session, opts: SessionOptions) -> Result<(), HapiError> {
    let call = session.initialize(opts)?;
    let code = engine.call(&call);
    session.initialize_reply(code)
}

/// Makes the teardown that a release hands out, and swallows its failures.
fn release(engine: &mut Engine, session: &mut Session) -> Vec<HapiError> {
    let handle = session.ptr();
    let mut failures = Vec::new();
    for step in session.release() {
        let code = engine.call(&step.call(handle));
        if let Err(e) = hapi_rs::errors::translate(code, Some(handle), None) {
            failures.push(e);
        }
    }
    failures
}

fn with_cleanup() -> SessionOptions {
    let mut opts = SessionOptions::default();
    opts.cleanup = true;
    opts
}

#[test]
fn connect_gives_one_owner_and_no_initialization() {
    let mut engine = Engine::new();
    let session = connect(&mut engine);
    assert_eq!(session.ptr(), NativeSession { kind: SessionKind::InProcess, id: 1 });
    assert_eq!(session.owners(), 1);
    assert!(!session.initialized());
    assert!(!session.closed());
    assert!(!session.unsync());
    assert_eq!(engine.log, vec!["create"]);
}

#[test]
fn connect_failure_is_a_connection_error() {
    let mut engine = Engine::new();
    let call = Session::connect_to_socket("localhost", 9090).unwrap();
    let (kind, code, id) = engine.connect(&call);
    let e = Session::connect(kind, code, id).unwrap_err();
    assert_eq!(e.kind, Kind::Connection(HapiResult::Failure));
    assert_eq!(e.message.as_deref(), Some("Could not start socket session"));
    let e = Session::connect(SessionKind::NamedPipe, 3, 0).unwrap_err();
    assert_eq!(e.kind, Kind::Connection(HapiResult::NotInitialized));
    assert_eq!(e.message.as_deref(), Some("Could not start piped session"));
    let e = Session::connect(SessionKind::InProcess, 110, 0).unwrap_err();
    assert_eq!(e.kind, Kind::Connection(HapiResult::NoLicenseFound));
    assert_eq!(e.message.as_deref(), Some("Session::new_in_process failed"));
}

#[test]
fn connect_calls_carry_the_endpoint() {
    match Session::new_named_pipe("/tmp/hapi").unwrap() {
        SessionCall::CreateThriftNamedPipeSession { path } => assert_eq!(path.as_bytes(), b"/tmp/hapi"),
        _ => panic!("wrong call"),
    }
    match Session::connect_to_socket("127.0.0.1", 31000).unwrap() {
        SessionCall::CreateThriftSocketSession { host, port } => {
            assert_eq!(host.as_bytes(), b"127.0.0.1");
            assert_eq!(port, 31000);
        }
        _ => panic!("wrong call"),
    }
    match Session::start_named_pipe_server("/tmp/hapi").unwrap() {
        SessionCall::StartThriftNamedPipeServer { path, auto_close, timeout_ms } => {
            assert_eq!(path.as_bytes(), b"/tmp/hapi");
            assert!(auto_close);
            assert_eq!(timeout_ms, 1000);
        }
        _ => panic!("wrong call"),
    }
}

#[test]
fn endpoints_with_zero_bytes_never_reach_the_engine() {
    assert_eq!(Session::new_named_pipe("/tmp/\0hapi").unwrap_err().kind, Kind::NullByte);
    assert_eq!(Session::connect_to_socket("local\0host", 1).unwrap_err().kind, Kind::NullByte);
    assert_eq!(Session::start_named_pipe_server("\0").unwrap_err().kind, Kind::NullByte);
}

#[test]
fn initialize_passes_the_options_on() {
    let mut engine = Engine::new();
    let mut session = connect(&mut engine);
    let opts = SessionOptions::default()
        .otl_search_paths(&[String::from("/otls"), String::from("/more")])
        .unwrap()
        .dso_search_paths(&[String::from("/dso")])
        .unwrap();
    match session.initialize(opts).unwrap() {
        SessionCall::Initialize {
            session: handle,
            cook_options,
            use_cooking_thread,
            cooking_thread_stack_size,
            env_files,
            otl_path,
            dso_path,
            img_dso_path,
            aud_dso_path,
        } => {
            assert_eq!(handle, session.ptr());
            assert_eq!(cook_options, None);
            assert!(use_cooking_thread);
            assert_eq!(cooking_thread_stack_size, -1);
            assert!(env_files.is_none());
            assert_eq!(otl_path.unwrap().as_bytes(), b"/otls:/more");
            assert_eq!(dso_path.unwrap().as_bytes(), b"/dso");
            assert!(img_dso_path.is_none());
            assert!(aud_dso_path.is_none());
        }
        _ => panic!("wrong call"),
    }
    assert!(session.unsync());
}

#[test]
fn initialize_twice_is_already_initialized() {
    let mut engine = Engine::new();
    let mut session = connect(&mut engine);
    initialize(&mut engine, &mut session, SessionOptions::default()).unwrap();
    assert!(session.initialized());
    let e = initialize(&mut engine, &mut session, with_cleanup()).unwrap_err();
    assert_eq!(e.kind, Kind::Hapi(HapiResult::AlreadyInitialized));
    assert_eq!(e.session, Some(session.ptr()));
    // The engine was asked once, and the session is as it was: usable.
    assert_eq!(engine.count("initialize"), 1);
    assert!(session.initialized());
    assert!(!session.closed());
    assert_eq!(session.owners(), 1);
    assert!(session.get_status(StatusType::CookState).is_ok());
}

#[test]
fn engine_that_is_initialized_already_leaves_the_session_usable() {
    let mut engine = Engine::new();
    engine.initialized = true;
    let mut session = connect(&mut engine);
    let e = initialize(&mut engine, &mut session, SessionOptions::default()).unwrap_err();
    assert_eq!(e.kind, Kind::Hapi(HapiResult::AlreadyInitialized));
    assert!(session.initialized());
    assert!(!session.closed());
}

#[test]
fn failed_initialize_leaves_the_session_uninitialized() {
    let mut session = Session::connect(SessionKind::InProcess, 0, 1).unwrap();
    let _ = session.initialize(SessionOptions::default()).unwrap();
    let e = session.initialize_reply(110).unwrap_err();
    assert_eq!(e.kind, Kind::Hapi(HapiResult::NoLicenseFound));
    assert!(!session.initialized());
    assert!(session.initialize(SessionOptions::default()).is_ok());
}

#[test]
fn is_initialized_reads_the_answer() {
    let session = Session::connect(SessionKind::InProcess, 0, 1).unwrap();
    assert_eq!(session.is_initialized(0).unwrap(), true);
    assert_eq!(session.is_initialized(3).unwrap(), false);
    let e = session.is_initialized(400).unwrap_err();
    assert_eq!(e.kind, Kind::Hapi(HapiResult::InvalidSession));
    assert_eq!(e.message.as_deref(), Some("HAPI_IsInitialized failed"));
}

#[test]
fn last_owner_tears_down_once_and_in_order() {
    let mut engine = Engine::new();
    let mut session = connect(&mut engine);
    initialize(&mut engine, &mut session, with_cleanup()).unwrap();
    assert!(session.retain());
    assert_eq!(session.owners(), 2);

    assert!(release(&mut engine, &mut session).is_empty());
    assert_eq!(engine.count("cleanup"), 0);
    assert_eq!(engine.count("close"), 0);
    assert!(!session.closed());
    assert!(engine.open);

    assert!(release(&mut engine, &mut session).is_empty());
    assert_eq!(engine.log, vec!["create", "initialize", "cleanup", "close"]);
    assert!(session.closed());
    assert_eq!(session.owners(), 0);

    assert!(release(&mut engine, &mut session).is_empty());
    assert!(session.close_session().is_empty());
    assert!(session.cleanup().is_none());
    assert_eq!(engine.count("cleanup"), 1);
    assert_eq!(engine.count("close"), 1);
}

#[test]
fn teardown_skips_cleanup_when_opted_out() {
    let mut engine = Engine::new();
    let mut session = connect(&mut engine);
    initialize(&mut engine, &mut session, SessionOptions::default()).unwrap();
    assert_eq!(session.release(), vec![Teardown::Close]);
    assert!(session.closed());
}

#[test]
fn teardown_skips_cleanup_when_not_initialized() {
    let mut session = Session::connect(SessionKind::InProcess, 0, 1).unwrap();
    assert_eq!(session.release(), vec![Teardown::Close]);
    assert_eq!(session.release(), vec![]);
}

#[test]
fn teardown_failures_are_swallowed() {
    let mut engine = Engine::new();
    engine.fail_cleanup = true;
    let mut session = connect(&mut engine);
    initialize(&mut engine, &mut session, with_cleanup()).unwrap();
    let failures = release(&mut engine, &mut session);
    assert_eq!(failures.len(), 1);
    assert_eq!(failures[0].kind, Kind::Hapi(HapiResult::Failure));
    assert_eq!(engine.log, vec!["create", "initialize", "cleanup", "close"]);
    assert!(session.closed());
}

#[test]
fn cleanup_is_a_no_op_when_not_initialized() {
    let mut engine = Engine::new();
    let mut session = connect(&mut engine);
    assert!(session.cleanup().is_none());
    initialize(&mut engine, &mut session, with_cleanup()).unwrap();
    let call = session.cleanup().unwrap();
    assert!(matches!(call, SessionCall::Cleanup { .. }));
    assert_eq!(engine.call(&call), 0);
    assert!(session.cleanup().is_none());
    // Cleanup ran already: the teardown does not repeat it.
    assert_eq!(session.release(), vec![Teardown::Close]);
}

#[test]
fn close_session_closes_for_every_owner() {
    let mut engine = Engine::new();
    let mut session = connect(&mut engine);
    initialize(&mut engine, &mut session, with_cleanup()).unwrap();
    assert!(session.retain());
    assert_eq!(session.close_session(), vec![Teardown::Cleanup, Teardown::Close]);
    assert!(session.closed());
    assert!(!session.retain());
    assert_eq!(session.release(), vec![]);
    assert_eq!(session.release(), vec![]);
}

#[test]
fn closed_session_refuses_every_call() {
    let mut session = Session::connect(SessionKind::InProcess, 0, 1).unwrap();
    let _ = session.release();
    let refused = [
        session.initialize(SessionOptions::default()).unwrap_err(),
        session.interrupt().unwrap_err(),
        session.get_status(StatusType::CookState).unwrap_err(),
        session.save_hip("a.hip").unwrap_err(),
        session.load_hip("a.hip", true).unwrap_err(),
        session.merge_hip("a.hip", false).unwrap_err(),
        session.cooking_total_count().unwrap_err(),
        session.cooking_current_count().unwrap_err(),
        session.create_node_blocking("Object/geo", None, None).unwrap_err(),
        session.create_input_node("in").unwrap_err(),
        session.load_asset_file("a.hda").unwrap_err(),
        session.live().unwrap_err(),
    ];
    for e in refused {
        assert_eq!(e.kind, Kind::Hapi(HapiResult::InvalidSession));
        assert_eq!(e.message.as_deref(), Some("Session is closed"));
    }
}

#[test]
fn teardown_steps_become_calls() {
    let handle = NativeSession { kind: SessionKind::Socket, id: 9 };
    assert!(matches!(Teardown::Cleanup.call(handle), SessionCall::Cleanup { session } if session == handle));
    assert!(matches!(Teardown::Close.call(handle), SessionCall::CloseSession { session } if session == handle));
}

#[test]
fn synchronous_session_never_polls() {
    let session = Session::connect(SessionKind::InProcess, 0, 1).unwrap();
    assert_eq!(session.cook_result(None), CookStep::Done(CookResult::Succeeded));
    assert_eq!(session.cook_result(Some(State::Cooking)), CookStep::Done(CookResult::Succeeded));
}

#[test]
fn cook_result_follows_the_cook_state() {
    let mut session = Session::connect(SessionKind::InProcess, 0, 1).unwrap();
    let _ = session.initialize(SessionOptions::default()).unwrap();
    assert!(session.unsync());
    assert_eq!(session.cook_result(None), CookStep::Poll);
    assert_eq!(session.cook_result(Some(State::StartingCook)), CookStep::Poll);
    assert_eq!(session.cook_result(Some(State::Cooking)), CookStep::Poll);
    assert_eq!(session.cook_result(Some(State::StartingLoad)), CookStep::Poll);
    assert_eq!(session.cook_result(Some(State::Loading)), CookStep::Poll);
    assert_eq!(session.cook_result(Some(State::Max)), CookStep::Poll);
    assert_eq!(session.cook_result(Some(State::Ready)), CookStep::Done(CookResult::Succeeded));
    assert_eq!(session.cook_result(Some(State::ReadyWithCookErrors)), CookStep::Done(CookResult::Warnings));
    assert_eq!(session.cook_result(Some(State::ReadyWithFatalErrors)), CookStep::Interrupt);
}

fn wait_for_cook(engine: &mut Engine, session: &Session, budget: usize) -> Result<Option<CookResult>, HapiError> {
    let mut observed = None;
    for _ in 0..budget {
        match session.cook_result(observed) {
            CookStep::Done(result) => return Ok(Some(result)),
            CookStep::Poll => {
                let call = session.get_status(StatusType::CookState)?;
                let (code, state) = engine.cook_state(&call);
                hapi_rs::errors::translate(code, Some(session.ptr()), None)?;
                observed = Some(state);
            }
            CookStep::Interrupt => {
                let code = engine.call(&session.interrupt()?);
                return session.cook_interrupted(code).map(Some);
            }
        }
    }
    Ok(None)
}

#[test]
fn polling_ends_with_the_cook() {
    let mut engine = Engine::new();
    let mut session = connect(&mut engine);
    initialize(&mut engine, &mut session, SessionOptions::default()).unwrap();
    engine.states = vec![State::StartingCook, State::Cooking, State::Cooking, State::Ready];
    assert_eq!(wait_for_cook(&mut engine, &session, 10).unwrap(), Some(CookResult::Succeeded));
    assert_eq!(engine.count("status"), 4);

    engine.states = vec![State::Cooking, State::ReadyWithFatalErrors];
    assert_eq!(wait_for_cook(&mut engine, &session, 10).unwrap(), Some(CookResult::Errored));
    assert_eq!(engine.count("interrupt"), 1);

    engine.states = vec![State::ReadyWithCookErrors];
    assert_eq!(wait_for_cook(&mut engine, &session, 10).unwrap(), Some(CookResult::Warnings));
}

#[test]
fn the_caller_bounds_the_wait() {
    let mut engine = Engine::new();
    let mut session = connect(&mut engine);
    initialize(&mut engine, &mut session, SessionOptions::default()).unwrap();
    engine.states = vec![State::Cooking; 8];
    assert_eq!(wait_for_cook(&mut engine, &session, 3).unwrap(), None);
}

#[test]
fn failed_interrupt_is_reported() {
    let session = Session::connect(SessionKind::InProcess, 0, 1).unwrap();
    assert_eq!(session.cook_interrupted(0).unwrap(), CookResult::Errored);
    let e = session.cook_interrupted(300).unwrap_err();
    assert_eq!(e.kind, Kind::Hapi(HapiResult::UserInterrupted));
    assert_eq!(e.session, Some(session.ptr()));
}

#[test]
fn is_cooking_reads_the_state() {
    let session = Session::connect(SessionKind::InProcess, 0, 1).unwrap();
    assert_eq!(session.is_cooking(0, State::Cooking).unwrap(), true);
    assert_eq!(session.is_cooking(0, State::Ready).unwrap(), false);
    assert_eq!(session.is_cooking(0, State::StartingCook).unwrap(), false);
    let e = session.is_cooking(400, State::Cooking).unwrap_err();
    assert_eq!(e.kind, Kind::Hapi(HapiResult::InvalidSession));
}

fn status_string(engine: &mut Engine, session: &Session) -> String {
    let mut reply = Reply::Start;
    loop {
        match session.get_cook_status(StatusVerbosity::Statusverbosity1, reply).unwrap() {
            Step::Done(text) => return text,
            Step::Call(call) => reply = engine.text(&call),
        }
    }
}

#[test]
fn status_string_is_sized_then_fetched() {
    let mut engine = Engine::new();
    let session = connect(&mut engine);
    engine.status = "Cook failed: missing input";
    assert_eq!(status_string(&mut engine, &session), "Cook failed: missing input");
    assert_eq!(engine.count("length"), 1);
    assert_eq!(engine.count("fetch"), 1);
}

#[test]
fn empty_status_string_is_not_fetched() {
    let mut engine = Engine::new();
    let session = connect(&mut engine);
    assert_eq!(status_string(&mut engine, &session), "");
    assert_eq!(engine.count("length"), 1);
    assert_eq!(engine.count("fetch"), 0);
}

#[test]
fn status_string_asks_for_what_was_named() {
    let session = Session::connect(SessionKind::InProcess, 0, 5).unwrap();
    let step = session
        .get_status_string(StatusType::CallResult, StatusVerbosity::Statusverbosity0, Reply::Start)
        .unwrap();
    match step {
        Step::Call(SessionCall::GetStatusStringBufLength { session: s, status_type, verbosity }) => {
            assert_eq!(s, session.ptr());
            assert_eq!(status_type, StatusType::CallResult);
            assert_eq!(verbosity, StatusVerbosity::Statusverbosity0);
        }
        _ => panic!("wrong step"),
    }
    let step = session
        .get_status_string(
            StatusType::CallResult,
            StatusVerbosity::Statusverbosity0,
            Reply::Size { code: 0, length: 12 },
        )
        .unwrap();
    assert!(matches!(
        step,
        Step::Call(SessionCall::GetStatusString { status_type: StatusType::CallResult, length: 12, .. })
    ));
    let e = session
        .get_status_string(
            StatusType::CallResult,
            StatusVerbosity::Statusverbosity0,
            Reply::Size { code: 1, length: 12 },
        )
        .unwrap_err();
    assert_eq!(e.message.as_deref(), Some("GetStatusStringBufLength failed"));
    let e = session
        .get_status_string(
            StatusType::CallResult,
            StatusVerbosity::Statusverbosity0,
            Reply::Data { code: 1, length: 2, values: vec![97, 0] },
        )
        .unwrap_err();
    assert_eq!(e.message.as_deref(), Some("GetStatusString failed"));
}

#[test]
fn connection_error_is_sized_then_fetched() {
    let mut engine = Engine::new();
    engine.status = "pipe closed";
    let mut reply = Reply::Start;
    let text = loop {
        match Session::get_connection_error(true, reply).unwrap() {
            Step::Done(text) => break text,
            Step::Call(call) => {
                if let SessionCall::GetConnectionError { clear, .. } = &call {
                    assert!(*clear);
                }
                reply = engine.text(&call);
            }
        }
    };
    assert_eq!(text, "pipe closed");
    let e = Session::get_connection_error(false, Reply::Size { code: 1, length: 3 }).unwrap_err();
    assert_eq!(e.message.as_deref(), Some("HAPI_GetConnectionErrorLength failed"));
    let e = Session::get_connection_error(false, Reply::Data { code: 1, length: 3, values: vec![] })
        .unwrap_err();
    assert_eq!(e.message.as_deref(), Some("HAPI_GetConnectionError failed"));
}

#[test]
fn hip_files_are_named_without_zero_bytes() {
    let session = Session::connect(SessionKind::InProcess, 0, 1).unwrap();
    match session.save_hip("/tmp/session.hip").unwrap() {
        SessionCall::SaveHipFile { name, lock_nodes, .. } => {
            assert_eq!(name.as_bytes(), b"/tmp/session.hip");
            assert!(!lock_nodes);
        }
        _ => panic!("wrong call"),
    }
    assert!(matches!(session.load_hip("a.hip", true).unwrap(), SessionCall::LoadHipFile { cook: true, .. }));
    assert!(matches!(session.merge_hip("a.hip", false).unwrap(), SessionCall::MergeHipFile { cook: false, .. }));
    assert_eq!(session.save_hip("a\0.hip").unwrap_err().kind, Kind::NullByte);
    assert_eq!(session.load_hip("\0", false).unwrap_err().kind, Kind::NullByte);
    assert_eq!(session.merge_hip("a.hip\0", false).unwrap_err().kind, Kind::NullByte);
}

#[test]
fn nodes_are_created_by_name() {
    let session = Session::connect(SessionKind::InProcess, 0, 1).unwrap();
    match session.create_node_blocking("Object/geo", Some("my geo"), Some(NodeHandle(4))).unwrap() {
        NodeCall::CreateNode { session: s, parent, name, label, cook } => {
            assert_eq!(s, session.ptr());
            assert_eq!(parent, 4);
            assert_eq!(name.as_bytes(), b"Object/geo");
            assert_eq!(label.unwrap().as_bytes(), b"my geo");
            assert!(!cook);
        }
        _ => panic!("wrong call"),
    }
    match session.create_node_blocking("Object/geo", None, None).unwrap() {
        NodeCall::CreateNode { parent, label, .. } => {
            assert_eq!(parent, -1);
            assert!(label.is_none());
        }
        _ => panic!("wrong call"),
    }
    assert_eq!(session.create_node_blocking("a\0", None, None).unwrap_err().kind, Kind::NullByte);
    assert_eq!(session.create_node_blocking("a", Some("\0"), None).unwrap_err().kind, Kind::NullByte);
    assert!(matches!(session.create_input_node("in").unwrap(), NodeCall::CreateInputNode { .. }));
    assert_eq!(session.create_input_node("i\0n").unwrap_err().kind, Kind::NullByte);
}

#[test]
fn asset_files_are_loaded_by_path() {
    let session = Session::connect(SessionKind::InProcess, 0, 1).unwrap();
    match session.load_asset_file("otls/FourShapes.hda").unwrap() {
        AssetCall::LoadAssetLibraryFromFile { session: s, path, allow_overwrite } => {
            assert_eq!(s, session.ptr());
            assert_eq!(path.as_bytes(), b"otls/FourShapes.hda");
            assert!(allow_overwrite);
        }
        _ => panic!("wrong call"),
    }
    assert_eq!(session.load_asset_file("otls/\0.hda").unwrap_err().kind, Kind::NullByte);
}

#[test]
fn search_paths_are_joined_and_checked() {
    let opts = SessionOptions::default()
        .houdini_env_files(&[String::from("/foo"), String::from("/bar")])
        .unwrap()
        .image_search_paths(&[String::from("/img")])
        .unwrap()
        .audio_search_paths(&[])
        .unwrap();
    assert_eq!(opts.env_files.as_ref().unwrap().as_bytes(), b"/foo:/bar");
    assert_eq!(opts.img_dso_path.as_ref().unwrap().as_bytes(), b"/img");
    assert_eq!(opts.aud_dso_path.as_ref().unwrap().as_bytes(), b"");
    assert!(opts.otl_path.is_none());
    assert!(opts.unsync);
    assert!(!opts.cleanup);

    let bad = [String::from("/ok"), String::from("/not\0ok")];
    assert_eq!(SessionOptions::default().otl_search_paths(&bad).unwrap_err().kind, Kind::NullByte);
    assert_eq!(SessionOptions::default().dso_search_paths(&bad).unwrap_err().kind, Kind::NullByte);
    assert_eq!(SessionOptions::default().image_search_paths(&bad).unwrap_err().kind, Kind::NullByte);
    assert_eq!(SessionOptions::default().audio_search_paths(&bad).unwrap_err().kind, Kind::NullByte);
    assert_eq!(SessionOptions::default().houdini_env_files(&bad).unwrap_err().kind, Kind::NullByte);
}

#[test]
fn default_cook_options() {
    let o = CookOptions::default();
    assert!(!o.split_geo_by_group);
    assert_eq!(o.max_vertices_per_primitive, -1);
    assert_eq!(f32::from_bits(o.curve_refine_lod.0), 8.0);
    assert_eq!(o.packed_prim_instancing_mode, PackedPrimInstancingMode::Disabled);
    assert_eq!(o.extra_flags, 0);
}

#[test]
fn retain_stops_at_the_limit_of_the_count() {
    let mut session = Session::connect(SessionKind::InProcess, 0, 1).unwrap();
    for _ in 0..100 {
        assert!(session.retain());
    }
    assert_eq!(session.owners(), 101);
    for _ in 0..100 {
        assert_eq!(session.release(), vec![]);
    }
    assert_eq!(session.release(), vec![Teardown::Close]);
}

#[test]
fn cleanup_policy_follows_the_options() {
    let mut session = Session::connect(SessionKind::InProcess, 0, 1).unwrap();
    assert!(session.cleans_up());
    let _ = session.initialize(SessionOptions::default()).unwrap();
    assert!(!session.cleans_up());
    let piped = Session::connect(SessionKind::NamedPipe, 0, 2).unwrap();
    assert!(!piped.cleans_up());
}

#[test]
fn status_string_of_a_bare_handle() {
    let handle = NativeSession { kind: SessionKind::NamedPipe, id: 3 };
    let reply = Reply::Data { code: 0, length: 6, values: b"ready\0".to_vec() };
    match hapi_rs::session::get_status_string(
        handle,
        StatusType::CallResult,
        StatusVerbosity::Statusverbosity2,
        reply,
    )
    .unwrap()
    {
        Step::Done(text) => assert_eq!(text, "ready"),
        Step::Call(_) => panic!("no call after the data"),
    }
}
