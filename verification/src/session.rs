//! The session: the live connection to the engine, its lifecycle from
//! connect to close, and the shared ownership under which it is torn down
//! exactly once.
//!
//! A session is one record with a count of its owners. Taking a share raises
//! the count, giving one up lowers it, and the owner that gives up the last
//! share is handed the teardown: cleanup first, where the session asks for it
//! and is initialized, then close. After that the record is closed and hands
//! out no call again.

use crate::asset::AssetCall;
use crate::errors::{classify, translate, ErrorModel, HapiError, HapiResult, Kind};
use crate::marshal::{prefix, Reply, Step};
use crate::node::{node_or_none, NodeCall, NodeHandle};
use crate::stringhandle::without_terminator;
use crate::text::{has_nul, join_paths, joined, text_from_bytes, text_of, texts, NativeString};
use vstd::prelude::*;
use vstd::utf8::encode_utf8;

verus! {

/// How a session reaches the engine.
#[derive(Debug, Clone, Copy, PartialEq, Eq, Structural)]
pub enum SessionKind {
    InProcess,
    NamedPipe,
    Socket,
}

/// The engine's handle of one session: what every native call is addressed to.
#[derive(Debug, Clone, Copy, PartialEq, Eq, Structural)]
pub struct NativeSession {
    pub kind: SessionKind,
    pub id: i64,
}

/// How a cook ended.
#[derive(Debug, Clone, Copy, PartialEq, Eq, Structural)]
pub enum CookResult {
    Succeeded,
    Warnings,
    Errored,
}

/// The state that the engine reports for a status.
#[derive(Debug, Clone, Copy, PartialEq, Eq, Structural)]
pub enum State {
    Ready,
    ReadyWithFatalErrors,
    ReadyWithCookErrors,
    StartingCook,
    Cooking,
    StartingLoad,
    Loading,
    Max,
}

/// Which status is asked for.
#[derive(Debug, Clone, Copy, PartialEq, Eq, Structural)]
pub enum StatusType {
    CallResult,
    CookResult,
    CookState,
    Max,
}

/// How much a status string tells.
#[derive(Debug, Clone, Copy, PartialEq, Eq, Structural)]
pub enum StatusVerbosity {
    Statusverbosity0,
    Statusverbosity1,
    Statusverbosity2,
}

/// How packed primitives are handed over.
#[derive(Debug, Clone, Copy, PartialEq, Eq, Structural)]
pub enum PackedPrimInstancingMode {
    Invalid,
    Disabled,
    Hierarchy,
    Flat,
    Max,
}

/// Options of a cook. Floats are held as their bit patterns.
#[derive(Debug, Clone, Copy, PartialEq, Eq, Structural)]
pub struct CookOptions {
    pub split_geo_by_group: bool,
    pub split_geos_by_attribute: bool,
    pub max_vertices_per_primitive: i32,
    pub refine_curve_to_linear: bool,
    pub curve_refine_lod: crate::marshal::F32Bits,
    pub clear_errors_and_warnings: bool,
    pub cook_templated_geos: bool,
    pub split_points_by_vertex_attributes: bool,
    pub handle_box_part_types: bool,
    pub handle_sphere_part_types: bool,
    pub check_part_changes: bool,
    pub packed_prim_instancing_mode: PackedPrimInstancingMode,
    pub extra_flags: i32,
}

/// What a session is initialized with. Where no cook options are given, the
/// engine's own defaults hold.
#[derive(Debug)]
pub struct SessionOptions {
    pub cook_opt: Option<CookOptions>,
    /// Whether the engine cooks in a thread of its own, so that the end of
    /// a cook has to be polled for.
    pub unsync: bool,
    /// Whether teardown cleans up the engine before it closes the session.
    pub cleanup: bool,
    pub env_files: Option<NativeString>,
    pub otl_path: Option<NativeString>,
    pub dso_path: Option<NativeString>,
    pub img_dso_path: Option<NativeString>,
    pub aud_dso_path: Option<NativeString>,
}

/// A native call about the session itself.
#[derive(Debug)]
pub enum SessionCall {
    CreateInProcessSession,
    StartThriftNamedPipeServer { path: NativeString, auto_close: bool, timeout_ms: u32 },
    CreateThriftNamedPipeSession { path: NativeString },
    CreateThriftSocketSession { host: NativeString, port: i32 },
    Initialize {
        session: NativeSession,
        cook_options: Option<CookOptions>,
        use_cooking_thread: bool,
        cooking_thread_stack_size: i32,
        env_files: Option<NativeString>,
        otl_path: Option<NativeString>,
        dso_path: Option<NativeString>,
        img_dso_path: Option<NativeString>,
        aud_dso_path: Option<NativeString>,
    },
    Cleanup { session: NativeSession },
    CloseSession { session: NativeSession },
    IsInitialized { session: NativeSession },
    Interrupt { session: NativeSession },
    GetStatus { session: NativeSession, status_type: StatusType },
    GetStatusStringBufLength {
        session: NativeSession,
        status_type: StatusType,
        verbosity: StatusVerbosity,
    },
    GetStatusString { session: NativeSession, status_type: StatusType, length: i32 },
    GetCookingTotalCount { session: NativeSession },
    GetCookingCurrentCount { session: NativeSession },
    GetConnectionErrorLength,
    GetConnectionError { length: i32, clear: bool },
    SaveHipFile { session: NativeSession, name: NativeString, lock_nodes: bool },
    LoadHipFile { session: NativeSession, name: NativeString, cook: bool },
    MergeHipFile { session: NativeSession, name: NativeString, cook: bool },
}

/// One step of a teardown.
#[derive(Debug, Clone, Copy, PartialEq, Eq, Structural)]
pub enum Teardown {
    /// Release what the engine holds for the session.
    Cleanup,
    /// Release the connection.
    Close,
}

/// What polling for the end of a cook does next.
#[derive(Debug, Clone, Copy, PartialEq, Eq, Structural)]
pub enum CookStep {
    /// The cook has ended.
    Done(CookResult),
    /// Ask the engine for the cook state, and come back with it.
    Poll,
    /// The cook ended in fatal errors: interrupt the engine, then report
    /// the cook as errored.
    Interrupt,
}

/// The session record.
#[derive(Debug)]
pub struct Session {
    handle: NativeSession,
    unsync: bool,
    cleanup: bool,
    initialized: bool,
    closed: bool,
    owners: usize,
}

/// A session as plain values.
pub struct SessionModel {
    pub handle: NativeSession,
    pub unsync: bool,
    pub cleanup: bool,
    pub initialized: bool,
    pub closed: bool,
    pub owners: nat,
}

impl View for Session {
    type V = SessionModel;

    closed spec fn view(&self) -> SessionModel {
        SessionModel {
            handle: self.handle,
            unsync: self.unsync,
            cleanup: self.cleanup,
            initialized: self.initialized,
            closed: self.closed,
            owners: self.owners as nat,
        }
    }
}

/// What holds of every session: one without owners is closed, and a closed
/// one is not initialized.
pub open spec fn valid(s: SessionModel) -> bool {
    &&& s.owners == 0 ==> s.closed
    &&& s.closed ==> !s.initialized
}

/// The steps that tear a session down: none where it is closed already;
/// else cleanup, where the session asks for it and is initialized, and then
/// close.
pub open spec fn teardown_plan(s: SessionModel) -> Seq<Teardown> {
    if s.closed {
        Seq::empty()
    } else if s.cleanup && s.initialized {
        seq![Teardown::Cleanup, Teardown::Close]
    } else {
        seq![Teardown::Close]
    }
}

/// The session after one more owner took a share.
pub open spec fn retained(s: SessionModel) -> SessionModel {
    SessionModel { owners: s.owners + 1, ..s }
}

/// The session after an owner gave up a share: while others hold one, only
/// the count goes down; the last share closes the session.
pub open spec fn released(s: SessionModel) -> SessionModel {
    if s.owners > 1 {
        SessionModel { owners: (s.owners - 1) as nat, ..s }
    } else {
        SessionModel { owners: 0, closed: true, initialized: false, ..s }
    }
}

/// The steps that giving up a share hands to the owner: the teardown for
/// the last share, nothing for any other.
pub open spec fn release_plan(s: SessionModel) -> Seq<Teardown> {
    if s.owners > 1 {
        Seq::empty()
    } else {
        teardown_plan(s)
    }
}

/// The session after the answer to an initialize call: initialized where
/// the engine reports success or that it was initialized already.
pub open spec fn after_initialize(s: SessionModel, code: int) -> SessionModel {
    if !s.closed && (code == 0 || classify(code) == HapiResult::AlreadyInitialized) {
        SessionModel { initialized: true, ..s }
    } else {
        s
    }
}

/// Why a session refuses to be initialized, if it does: it is closed, or it
/// is initialized already. Nothing is asked of the engine then.
pub open spec fn initialize_refusal(s: SessionModel) -> Option<ErrorModel> {
    if s.closed {
        Some(closed_error(s.handle))
    } else if s.initialized {
        Some(
            ErrorModel {
                kind: Kind::Hapi(HapiResult::AlreadyInitialized),
                message: None,
                session: Some(s.handle),
            },
        )
    } else {
        None
    }
}

/// The session after a call to initialize it with the given policies: as it
/// was where it refuses, else with the policies taken over.
pub open spec fn with_policies(s: SessionModel, unsync: bool, cleanup: bool) -> SessionModel {
    if initialize_refusal(s) is Some {
        s
    } else {
        SessionModel { unsync, cleanup, ..s }
    }
}

/// The error for any operation on a session that is closed.
pub open spec fn closed_error(handle: NativeSession) -> ErrorModel {
    ErrorModel {
        kind: Kind::Hapi(HapiResult::InvalidSession),
        message: Some("Session is closed"@),
        session: None,
    }
}

/// The error of an engine failure on a session.
pub open spec fn engine_error(code: int, handle: NativeSession) -> ErrorModel {
    ErrorModel { kind: Kind::Hapi(classify(code)), message: None, session: Some(handle) }
}

/// What polling for the end of a cook does next, given the cook state that
/// the engine last reported, if any. A session that cooks on the calling
/// thread never polls: its cook had ended when the call returned.
pub open spec fn cook_step(unsync: bool, observed: Option<State>) -> CookStep {
    if !unsync {
        CookStep::Done(CookResult::Succeeded)
    } else {
        match observed {
            Some(State::Ready) => CookStep::Done(CookResult::Succeeded),
            Some(State::ReadyWithFatalErrors) => CookStep::Interrupt,
            Some(State::ReadyWithCookErrors) => CookStep::Done(CookResult::Warnings),
            _ => CookStep::Poll,
        }
    }
}

impl Teardown {
    /// The native call of this step, on the given session.
    pub fn call(self, session: NativeSession) -> (call: SessionCall)
        ensures
            match self {
                Teardown::Cleanup => call matches SessionCall::Cleanup { session: s } && s
                    == session,
                Teardown::Close => call matches SessionCall::CloseSession { session: s } && s
                    == session,
            },
    {
        match self {
            Teardown::Cleanup => SessionCall::Cleanup { session },
            Teardown::Close => SessionCall::CloseSession { session },
        }
    }
}

impl Default for CookOptions {
    fn default() -> (o: CookOptions)
        ensures
            o == (CookOptions {
                split_geo_by_group: false,
                split_geos_by_attribute: false,
                max_vertices_per_primitive: -1i32,
                refine_curve_to_linear: false,
                curve_refine_lod: crate::marshal::F32Bits(0x4100_0000),
                clear_errors_and_warnings: false,
                cook_templated_geos: false,
                split_points_by_vertex_attributes: false,
                handle_box_part_types: false,
                handle_sphere_part_types: false,
                check_part_changes: false,
                packed_prim_instancing_mode: PackedPrimInstancingMode::Disabled,
                extra_flags: 0,
            }),
    {
        CookOptions {
            split_geo_by_group: false,
            split_geos_by_attribute: false,
            max_vertices_per_primitive: -1,
            refine_curve_to_linear: false,
            curve_refine_lod: crate::marshal::F32Bits(0x4100_0000),
            clear_errors_and_warnings: false,
            cook_templated_geos: false,
            split_points_by_vertex_attributes: false,
            handle_box_part_types: false,
            handle_sphere_part_types: false,
            check_part_changes: false,
            packed_prim_instancing_mode: PackedPrimInstancingMode::Disabled,
            extra_flags: 0,
        }
    }
}

impl Default for SessionOptions {
    fn default() -> (o: SessionOptions)
        ensures
            o.cook_opt is None,
            o.unsync,
            !o.cleanup,
            o.env_files is None,
            o.otl_path is None,
            o.dso_path is None,
            o.img_dso_path is None,
            o.aud_dso_path is None,
    {
        SessionOptions {
            cook_opt: None,
            unsync: true,
            cleanup: false,
            env_files: None,
            otl_path: None,
            dso_path: None,
            img_dso_path: None,
            aud_dso_path: None,
        }
    }
}

/// The bytes of an optional text.
pub open spec fn optional_bytes(text: Option<NativeString>) -> Option<Seq<u8>> {
    match text {
        Some(t) => Some(t@),
        None => None,
    }
}

/// A list of search paths as the text that the engine takes, or `NullByte`
/// if a path holds a zero byte.
pub fn search_path(paths: &[String]) -> (r: Result<NativeString, HapiError>)
    ensures
        r is Err <==> has_nul(encode_utf8(joined(texts(paths@)))),
        r matches Ok(text) ==> text@ == encode_utf8(joined(texts(paths@))),
        r matches Err(e) ==> e@ == (ErrorModel {
            kind: Kind::NullByte,
            message: None,
            session: None,
        }),
{
    let list = join_paths(paths);
    NativeString::new(list.as_str())
}

impl SessionOptions {
    /// Sets the environment files. Fails with `NullByte` if a path holds a
    /// zero byte.
    pub fn houdini_env_files(self, files: &[String]) -> (r: Result<SessionOptions, HapiError>)
        ensures
            r is Err <==> has_nul(encode_utf8(joined(texts(files@)))),
            r matches Err(e) ==> e@.kind == Kind::NullByte && e@.message is None && e@.session
                is None,
            r matches Ok(o) ==> optional_bytes(o.env_files) == Some(
                encode_utf8(joined(texts(files@))),
            ) && o.cook_opt == self.cook_opt && o.unsync == self.unsync && o.cleanup == self.cleanup
                && o.otl_path == self.otl_path && o.dso_path == self.dso_path && o.img_dso_path
                == self.img_dso_path && o.aud_dso_path == self.aud_dso_path,
    {
        match search_path(files) {
            Err(e) => Err(e),
            Ok(text) => Ok(SessionOptions { env_files: Some(text), ..self }),
        }
    }

    /// Sets the search paths for assets. Fails with `NullByte` if a path
    /// holds a zero byte.
    pub fn otl_search_paths(self, paths: &[String]) -> (r: Result<SessionOptions, HapiError>)
        ensures
            r is Err <==> has_nul(encode_utf8(joined(texts(paths@)))),
            r matches Err(e) ==> e@.kind == Kind::NullByte && e@.message is None && e@.session
                is None,
            r matches Ok(o) ==> optional_bytes(o.otl_path) == Some(
                encode_utf8(joined(texts(paths@))),
            ) && o.cook_opt == self.cook_opt && o.unsync == self.unsync && o.cleanup == self.cleanup
                && o.env_files == self.env_files && o.dso_path == self.dso_path && o.img_dso_path
                == self.img_dso_path && o.aud_dso_path == self.aud_dso_path,
    {
        match search_path(paths) {
            Err(e) => Err(e),
            Ok(text) => Ok(SessionOptions { otl_path: Some(text), ..self }),
        }
    }

    /// Sets the search paths for extensions. Fails with `NullByte` if a
    /// path holds a zero byte.
    pub fn dso_search_paths(self, paths: &[String]) -> (r: Result<SessionOptions, HapiError>)
        ensures
            r is Err <==> has_nul(encode_utf8(joined(texts(paths@)))),
            r matches Err(e) ==> e@.kind == Kind::NullByte && e@.message is None && e@.session
                is None,
            r matches Ok(o) ==> optional_bytes(o.dso_path) == Some(
                encode_utf8(joined(texts(paths@))),
            ) && o.cook_opt == self.cook_opt && o.unsync == self.unsync && o.cleanup == self.cleanup
                && o.env_files == self.env_files && o.otl_path == self.otl_path && o.img_dso_path
                == self.img_dso_path && o.aud_dso_path == self.aud_dso_path,
    {
        match search_path(paths) {
            Err(e) => Err(e),
            Ok(text) => Ok(SessionOptions { dso_path: Some(text), ..self }),
        }
    }

    /// Sets the search paths for image extensions. Fails with `NullByte` if
    /// a path holds a zero byte.
    pub fn image_search_paths(self, paths: &[String]) -> (r: Result<SessionOptions, HapiError>)
        ensures
            r is Err <==> has_nul(encode_utf8(joined(texts(paths@)))),
            r matches Err(e) ==> e@.kind == Kind::NullByte && e@.message is None && e@.session
                is None,
            r matches Ok(o) ==> optional_bytes(o.img_dso_path) == Some(
                encode_utf8(joined(texts(paths@))),
            ) && o.cook_opt == self.cook_opt && o.unsync == self.unsync && o.cleanup == self.cleanup
                && o.env_files == self.env_files && o.otl_path == self.otl_path && o.dso_path
                == self.dso_path && o.aud_dso_path == self.aud_dso_path,
    {
        match search_path(paths) {
            Err(e) => Err(e),
            Ok(text) => Ok(SessionOptions { img_dso_path: Some(text), ..self }),
        }
    }

    /// Sets the search paths for audio extensions. Fails with `NullByte` if
    /// a path holds a zero byte.
    pub fn audio_search_paths(self, paths: &[String]) -> (r: Result<SessionOptions, HapiError>)
        ensures
            r is Err <==> has_nul(encode_utf8(joined(texts(paths@)))),
            r matches Err(e) ==> e@.kind == Kind::NullByte && e@.message is None && e@.session
                is None,
            r matches Ok(o) ==> optional_bytes(o.aud_dso_path) == Some(
                encode_utf8(joined(texts(paths@))),
            ) && o.cook_opt == self.cook_opt && o.unsync == self.unsync && o.cleanup == self.cleanup
                && o.env_files == self.env_files && o.otl_path == self.otl_path && o.dso_path
                == self.dso_path && o.img_dso_path == self.img_dso_path,
    {
        match search_path(paths) {
            Err(e) => Err(e),
            Ok(text) => Ok(SessionOptions { aud_dso_path: Some(text), ..self }),
        }
    }
}

/// What one step of fetching a status string yields: at the start the
/// query for the length of the buffer; after it the engine's error, or the
/// empty string and no fetch where the length is not positive, or the fetch
/// of exactly that length; after the fetch the engine's error, or the text
/// of the buffer as far as the length that was asked for, without the
/// terminator at its end.
pub open spec fn status_step(
    session: NativeSession,
    status: StatusType,
    verbosity: StatusVerbosity,
    reply: Reply<u8>,
    r: Result<Step<SessionCall, String>, HapiError>,
) -> bool {
    match reply {
        Reply::Start => r matches Ok(
            Step::Call(SessionCall::GetStatusStringBufLength { session: s, status_type, verbosity: v }),
        ) && s == session && status_type == status && v == verbosity,
        Reply::Size { code, length } => if code != 0 {
            r matches Err(e) && e@ == (ErrorModel {
                kind: Kind::Hapi(classify(code as int)),
                message: Some("GetStatusStringBufLength failed"@),
                session: None,
            })
        } else if length <= 0 {
            r matches Ok(Step::Done(text)) && text@.len() == 0
        } else {
            r matches Ok(
                Step::Call(SessionCall::GetStatusString { session: s, status_type, length: n }),
            ) && s == session && status_type == status && n == length
        },
        Reply::Data { code, length, values } => if code != 0 {
            r matches Err(e) && e@ == (ErrorModel {
                kind: Kind::Hapi(classify(code as int)),
                message: Some("GetStatusString failed"@),
                session: None,
            })
        } else {
            r matches Ok(Step::Done(text)) && text@ == text_of(prefix(values@, length - 1))
        },
    }
}

/// One step of fetching a status string of a session.
pub fn get_status_string(
    session: NativeSession,
    status: StatusType,
    verbosity: StatusVerbosity,
    reply: Reply<u8>,
) -> (r: Result<Step<SessionCall, String>, HapiError>)
    ensures
        status_step(session, status, verbosity, reply, r),
{
    match reply {
        Reply::Start => Ok(
            Step::Call(
                SessionCall::GetStatusStringBufLength { session, status_type: status, verbosity },
            ),
        ),
        Reply::Size { code, length } => {
            match translate(code, None, Some("GetStatusStringBufLength failed")) {
                Err(e) => Err(e),
                Ok(()) => {
                    if length > 0 {
                        Ok(
                            Step::Call(
                                SessionCall::GetStatusString { session, status_type: status, length },
                            ),
                        )
                    } else {
                        Ok(Step::Done(String::new()))
                    }
                },
            }
        },
        Reply::Data { code, length, values } => {
            match translate(code, None, Some("GetStatusString failed")) {
                Err(e) => Err(e),
                Ok(()) => {
                    let kept = without_terminator(values, length);
                    Ok(Step::Done(text_from_bytes(kept.as_slice())))
                },
            }
        },
    }
}

/// The message of a failed connect, by the kind of connection.
pub open spec fn connect_message(kind: SessionKind) -> Seq<char> {
    match kind {
        SessionKind::InProcess => "Session::new_in_process failed"@,
        SessionKind::NamedPipe => "Could not start piped session"@,
        SessionKind::Socket => "Could not start socket session"@,
    }
}

/// The error for any operation on a session that is closed.
fn session_closed() -> (e: HapiError)
    ensures
        e@ == (ErrorModel {
            kind: Kind::Hapi(HapiResult::InvalidSession),
            message: Some("Session is closed"@),
            session: None,
        }),
{
    HapiError::local(HapiResult::InvalidSession, "Session is closed")
}

impl Session {
    /// The call that starts a session inside this process.
    pub fn new_in_process() -> (call: SessionCall)
        ensures
            call is CreateInProcessSession,
    {
        SessionCall::CreateInProcessSession
    }

    /// The call that starts a server on a named pipe, or `NullByte` if the
    /// path holds a zero byte. The server closes with its last session and
    /// gives up waiting for one after a second.
    pub fn start_named_pipe_server(path: &str) -> (r: Result<SessionCall, HapiError>)
        ensures
            r is Err <==> has_nul(encode_utf8(path@)),
            r matches Err(e) ==> e@ == (ErrorModel {
                kind: Kind::NullByte,
                message: None,
                session: None,
            }),
            r matches Ok(call) ==> (call matches SessionCall::StartThriftNamedPipeServer {
                path: p,
                auto_close,
                timeout_ms,
            } && p@ == encode_utf8(path@) && auto_close && timeout_ms == 1000),
    {
        match NativeString::new(path) {
            Err(e) => Err(e),
            Ok(p) => Ok(
                SessionCall::StartThriftNamedPipeServer {
                    path: p,
                    auto_close: true,
                    timeout_ms: 1000,
                },
            ),
        }
    }

    /// The call that connects to a server on a named pipe, or `NullByte` if
    /// the path holds a zero byte.
    pub fn new_named_pipe(path: &str) -> (r: Result<SessionCall, HapiError>)
        ensures
            r is Err <==> has_nul(encode_utf8(path@)),
            r matches Err(e) ==> e@ == (ErrorModel {
                kind: Kind::NullByte,
                message: None,
                session: None,
            }),
            r matches Ok(call) ==> (call matches SessionCall::CreateThriftNamedPipeSession {
                path: p,
            } && p@ == encode_utf8(path@)),
    {
        match NativeString::new(path) {
            Err(e) => Err(e),
            Ok(p) => Ok(SessionCall::CreateThriftNamedPipeSession { path: p }),
        }
    }

    /// The call that connects to a server on a socket, or `NullByte` if the
    /// host holds a zero byte.
    pub fn connect_to_socket(host: &str, port: i32) -> (r: Result<SessionCall, HapiError>)
        ensures
            r is Err <==> has_nul(encode_utf8(host@)),
            r matches Err(e) ==> e@ == (ErrorModel {
                kind: Kind::NullByte,
                message: None,
                session: None,
            }),
            r matches Ok(call) ==> (call matches SessionCall::CreateThriftSocketSession {
                host: h,
                port: p,
            } && h@ == encode_utf8(host@) && p == port),
    {
        match NativeString::new(host) {
            Err(e) => Err(e),
            Ok(h) => Ok(SessionCall::CreateThriftSocketSession { host: h, port }),
        }
    }

    /// The session that a connect call established, or a connection error
    /// where the engine refused. The new session has one owner and is not
    /// initialized; one inside the process cleans up on teardown, one that
    /// is shared with a server does not.
    pub fn connect(kind: SessionKind, code: i32, id: i64) -> (r: Result<Session, HapiError>)
        ensures
            r is Ok <==> code == 0,
            r matches Ok(s) ==> s@ == (SessionModel {
                handle: NativeSession { kind, id },
                unsync: false,
                cleanup: kind == SessionKind::InProcess,
                initialized: false,
                closed: false,
                owners: 1,
            }) && valid(s@),
            r matches Err(e) ==> e@ == (ErrorModel {
                kind: Kind::Connection(classify(code as int)),
                message: Some(connect_message(kind)),
                session: None,
            }),
    {
        if code == 0 {
            let cleanup = match kind {
                SessionKind::InProcess => true,
                _ => false,
            };
            Ok(
                Session {
                    handle: NativeSession { kind, id },
                    unsync: false,
                    cleanup,
                    initialized: false,
                    closed: false,
                    owners: 1,
                },
            )
        } else {
            let message = match kind {
                SessionKind::InProcess => "Session::new_in_process failed",
                SessionKind::NamedPipe => "Could not start piped session",
                SessionKind::Socket => "Could not start socket session",
            };
            Err(
                HapiError::new(
                    Kind::Connection(HapiResult::from_code(code)),
                    None,
                    Some(String::from_str(message)),
                ),
            )
        }
    }

    #[verifier::type_invariant]
    spec fn well_formed(self) -> bool {
        valid(self@)
    }

    /// The engine's handle of this session.
    pub fn ptr(&self) -> (handle: NativeSession)
        ensures
            handle == self@.handle,
    {
        self.handle
    }

    /// Whether the engine cooks in a thread of its own.
    pub fn unsync(&self) -> (b: bool)
        ensures
            b == self@.unsync,
    {
        self.unsync
    }

    /// Whether the session is known to be initialized.
    pub fn initialized(&self) -> (b: bool)
        ensures
            b == self@.initialized,
    {
        self.initialized
    }

    /// Whether teardown cleans up the engine before it closes the session.
    pub fn cleans_up(&self) -> (b: bool)
        ensures
            b == self@.cleanup,
    {
        self.cleanup
    }

    /// Whether the session is closed.
    pub fn closed(&self) -> (b: bool)
        ensures
            b == self@.closed,
            valid(self@),
    {
        proof {
            use_type_invariant(self);
        }
        self.closed
    }

    /// The number of owners.
    pub fn owners(&self) -> (n: usize)
        ensures
            n == self@.owners,
    {
        self.owners
    }

    /// The handle of a live session, or the error for a closed one.
    pub fn live(&self) -> (r: Result<NativeSession, HapiError>)
        ensures
            r is Err <==> self@.closed,
            r matches Ok(h) ==> h == self@.handle,
            r matches Err(e) ==> e@ == closed_error(self@.handle),
    {
        if self.closed {
            Err(session_closed())
        } else {
            Ok(self.handle)
        }
    }

    /// Takes one more share of the session. `false` where the session is
    /// closed or the count of owners is at its limit; nothing changes then.
    pub fn retain(&mut self) -> (taken: bool)
        ensures
            taken <==> !old(self)@.closed && old(self)@.owners < usize::MAX,
            taken ==> final(self)@ == retained(old(self)@),
            !taken ==> final(self)@ == old(self)@,
            valid(final(self)@),
    {
        proof {
            use_type_invariant(&*self);
        }
        if self.closed || self.owners == usize::MAX {
            false
        } else {
            *self = Session { owners: self.owners + 1, ..*self };
            true
        }
    }

    /// Gives up one share of the session. While other owners hold a share
    /// nothing is to be done; the last share hands back the teardown, in the
    /// order in which it is to be made, and closes the session. Whether a
    /// step of the teardown fails is for the owner to record, not to act on.
    pub fn release(&mut self) -> (steps: Vec<Teardown>)
        ensures
            steps@ == release_plan(old(self)@),
            final(self)@ == released(old(self)@),
            valid(final(self)@),
    {
        proof {
            use_type_invariant(&*self);
        }
        if self.owners > 1 {
            *self = Session { owners: self.owners - 1, ..*self };
            Vec::new()
        } else {
            let steps = self.plan();
            *self = Session { owners: 0, closed: true, initialized: false, ..*self };
            steps
        }
    }

    /// The teardown of this session as it stands.
    fn plan(&self) -> (steps: Vec<Teardown>)
        ensures
            steps@ == teardown_plan(self@),
    {
        let mut steps: Vec<Teardown> = Vec::new();
        if !self.closed {
            if self.cleanup && self.initialized {
                steps.push(Teardown::Cleanup);
            }
            steps.push(Teardown::Close);
        }
        proof {
            assert(steps@ =~= teardown_plan(self@));
        }
        steps
    }

    /// The call that initializes the session with the given options, which
    /// the session takes over. A session that is initialized already is not
    /// initialized again: that is `AlreadyInitialized`, no call is made, and
    /// the session is as it was.
    pub fn initialize(&mut self, opts: SessionOptions) -> (r: Result<SessionCall, HapiError>)
        ensures
            valid(final(self)@),
            final(self)@ == with_policies(old(self)@, opts.unsync, opts.cleanup),
            initialize_refusal(old(self)@) matches Some(refusal) ==> (r matches Err(e) && e@
                == refusal),
            initialize_refusal(old(self)@) is None ==> (r matches Ok(
                SessionCall::Initialize {
                    session,
                    cook_options,
                    use_cooking_thread,
                    cooking_thread_stack_size,
                    env_files,
                    otl_path,
                    dso_path,
                    img_dso_path,
                    aud_dso_path,
                },
            ) && session == old(self)@.handle && cook_options == opts.cook_opt
                && use_cooking_thread == opts.unsync && cooking_thread_stack_size == -1
                && env_files == opts.env_files && otl_path == opts.otl_path && dso_path
                == opts.dso_path && img_dso_path == opts.img_dso_path && aud_dso_path
                == opts.aud_dso_path),
    {
        proof {
            use_type_invariant(&*self);
        }
        if self.closed {
            return Err(session_closed());
        }
        if self.initialized {
            return Err(
                HapiError::new(
                    Kind::Hapi(HapiResult::AlreadyInitialized),
                    Some(self.handle),
                    None,
                ),
            );
        }
        *self = Session { unsync: opts.unsync, cleanup: opts.cleanup, ..*self };
        Ok(
            SessionCall::Initialize {
                session: self.handle,
                cook_options: opts.cook_opt,
                use_cooking_thread: opts.unsync,
                cooking_thread_stack_size: -1,
                env_files: opts.env_files,
                otl_path: opts.otl_path,
                dso_path: opts.dso_path,
                img_dso_path: opts.img_dso_path,
                aud_dso_path: opts.aud_dso_path,
            },
        )
    }

    /// Takes the engine's answer to the initialize call. Success makes the
    /// session initialized. So does the answer that the engine was
    /// initialized already, which is still reported, as an error that a
    /// caller can tell from every other and pass over.
    pub fn initialize_reply(&mut self, code: i32) -> (r: Result<(), HapiError>)
        ensures
            valid(final(self)@),
            final(self)@ == after_initialize(old(self)@, code as int),
            r is Ok <==> code == 0,
            r matches Err(e) ==> e@ == engine_error(code as int, old(self)@.handle),
    {
        proof {
            use_type_invariant(&*self);
        }
        match translate(code, Some(self.handle), None) {
            Ok(()) => {
                if !self.closed {
                    *self = Session { initialized: true, ..*self };
                }
                Ok(())
            },
            Err(e) => {
                match e.kind {
                    Kind::Hapi(HapiResult::AlreadyInitialized) => {
                        if !self.closed {
                            *self = Session { initialized: true, ..*self };
                        }
                    },
                    _ => {},
                }
                Err(e)
            },
        }
    }

    /// Whether the engine is initialized, from its answer to that question:
    /// success says yes, "not initialized" says no, anything else is an error.
    pub fn is_initialized(&self, code: i32) -> (r: Result<bool, HapiError>)
        ensures
            code == 0 ==> r == Ok::<bool, HapiError>(true),
            code != 0 && classify(code as int) == HapiResult::NotInitialized ==> r == Ok::<
                bool,
                HapiError,
            >(false),
            code != 0 && classify(code as int) != HapiResult::NotInitialized ==> (r matches Err(e)
                && e@ == (ErrorModel {
                kind: Kind::Hapi(classify(code as int)),
                message: Some("HAPI_IsInitialized failed"@),
                session: None,
            })),
    {
        match HapiResult::from_code(code) {
            HapiResult::Success => {
                proof {
                    crate::errors::lemma_success_is_zero(code as int);
                }
                Ok(true)
            },
            HapiResult::NotInitialized => Ok(false),
            e => {
                Err(
                    HapiError::new(
                        Kind::Hapi(e),
                        None,
                        Some(String::from_str("HAPI_IsInitialized failed")),
                    ),
                )
            },
        }
    }

    /// The call that releases what the engine holds for the session, while
    /// the connection stays. Nothing is to be done, and `None` is returned,
    /// where the session is not initialized; so a second cleanup is none.
    pub fn cleanup(&mut self) -> (call: Option<SessionCall>)
        ensures
            valid(final(self)@),
            final(self)@ == (SessionModel { initialized: false, ..old(self)@ }),
            old(self)@.initialized ==> (call matches Some(SessionCall::Cleanup { session })
                && session == old(self)@.handle),
            !old(self)@.initialized ==> call is None,
    {
        proof {
            use_type_invariant(&*self);
        }
        if self.initialized {
            *self = Session { initialized: false, ..*self };
            Some(SessionCall::Cleanup { session: self.handle })
        } else {
            None
        }
    }

    /// Closes the session now, whatever the number of its owners: hands
    /// back the teardown, cleanup first where it is due, and leaves the
    /// session closed. A closed session has nothing left to do.
    pub fn close_session(&mut self) -> (steps: Vec<Teardown>)
        ensures
            valid(final(self)@),
            steps@ == teardown_plan(old(self)@),
            final(self)@ == (SessionModel { closed: true, initialized: false, ..old(self)@ }),
    {
        proof {
            use_type_invariant(&*self);
        }
        let steps = self.plan();
        *self = Session { closed: true, initialized: false, ..*self };
        steps
    }

    /// The call that creates a node: by the name of its operator, with an
    /// optional label, under an optional parent. The engine does not cook
    /// the node in this call; where the session cooks in a thread of its
    /// own, the caller then polls `cook_result`. Fails with `NullByte` if
    /// the name or the label holds a zero byte.
    pub fn create_node_blocking(&self, name: &str, label: Option<&str>, parent: Option<
        NodeHandle,
    >) -> (r: Result<NodeCall, HapiError>)
        ensures
            self@.closed ==> (r matches Err(e) && e@ == closed_error(self@.handle)),
            !self@.closed ==> (r is Err <==> has_nul(encode_utf8(name@)) || (label matches Some(l)
                && has_nul(encode_utf8(l@)))),
            !self@.closed ==> (r matches Err(e) ==> e@ == (ErrorModel {
                kind: Kind::NullByte,
                message: None,
                session: None,
            })),
            r matches Ok(call) ==> (call matches NodeCall::CreateNode {
                session,
                parent: p,
                name: n,
                label: l,
                cook,
            } && session == self@.handle && p == (match parent {
                Some(h) => h.0,
                None => crate::node::NO_NODE,
            }) && n@ == encode_utf8(name@) && !cook && optional_bytes(l) == (match label {
                Some(t) => Some(encode_utf8(t@)),
                None => None,
            })),
    {
        let session = match self.live() {
            Err(e) => {
                return Err(e);
            },
            Ok(s) => s,
        };
        let n = match NativeString::new(name) {
            Err(e) => {
                return Err(e);
            },
            Ok(n) => n,
        };
        let l = match label {
            None => None,
            Some(text) => match NativeString::new(text) {
                Err(e) => {
                    return Err(e);
                },
                Ok(l) => Some(l),
            },
        };
        Ok(NodeCall::CreateNode { session, parent: node_or_none(parent), name: n, label: l, cook: false })
    }

    /// The call that creates a node for geometry that the caller supplies,
    /// or `NullByte` if the name holds a zero byte.
    pub fn create_input_node(&self, name: &str) -> (r: Result<NodeCall, HapiError>)
        ensures
            self@.closed ==> (r matches Err(e) && e@ == closed_error(self@.handle)),
            !self@.closed ==> (r is Err <==> has_nul(encode_utf8(name@))),
            !self@.closed ==> (r matches Err(e) ==> e@ == (ErrorModel {
                kind: Kind::NullByte,
                message: None,
                session: None,
            })),
            r matches Ok(call) ==> (call matches NodeCall::CreateInputNode { session, name: n }
                && session == self@.handle && n@ == encode_utf8(name@)),
    {
        match self.live() {
            Err(e) => Err(e),
            Ok(session) => match NativeString::new(name) {
                Err(e) => Err(e),
                Ok(n) => Ok(NodeCall::CreateInputNode { session, name: n }),
            },
        }
    }

    /// The call that loads a library of assets from a file, or `NullByte`
    /// if the path holds a zero byte.
    pub fn load_asset_file(&self, file: &str) -> (r: Result<AssetCall, HapiError>)
        ensures
            self@.closed ==> (r matches Err(e) && e@ == closed_error(self@.handle)),
            !self@.closed ==> (r is Err <==> has_nul(encode_utf8(file@))),
            !self@.closed ==> (r matches Err(e) ==> e@ == (ErrorModel {
                kind: Kind::NullByte,
                message: None,
                session: None,
            })),
            r matches Ok(call) ==> (call matches AssetCall::LoadAssetLibraryFromFile {
                session,
                path,
                allow_overwrite,
            } && session == self@.handle && path@ == encode_utf8(file@) && allow_overwrite),
    {
        match self.live() {
            Err(e) => Err(e),
            Ok(session) => crate::asset::AssetLibrary::from_file(session, file),
        }
    }

    /// The call that saves the scene to a file, or `NullByte` if the name
    /// holds a zero byte.
    pub fn save_hip(&self, name: &str) -> (r: Result<SessionCall, HapiError>)
        ensures
            self@.closed ==> (r matches Err(e) && e@ == closed_error(self@.handle)),
            !self@.closed ==> (r is Err <==> has_nul(encode_utf8(name@))),
            !self@.closed ==> (r matches Err(e) ==> e@ == (ErrorModel {
                kind: Kind::NullByte,
                message: None,
                session: None,
            })),
            r matches Ok(call) ==> (call matches SessionCall::SaveHipFile {
                session,
                name: n,
                lock_nodes,
            } && session == self@.handle && n@ == encode_utf8(name@) && !lock_nodes),
    {
        match self.live() {
            Err(e) => Err(e),
            Ok(session) => match NativeString::new(name) {
                Err(e) => Err(e),
                Ok(n) => Ok(SessionCall::SaveHipFile { session, name: n, lock_nodes: false }),
            },
        }
    }

    /// The call that loads a scene from a file, or `NullByte` if the name
    /// holds a zero byte.
    pub fn load_hip(&self, name: &str, cook: bool) -> (r: Result<SessionCall, HapiError>)
        ensures
            self@.closed ==> (r matches Err(e) && e@ == closed_error(self@.handle)),
            !self@.closed ==> (r is Err <==> has_nul(encode_utf8(name@))),
            !self@.closed ==> (r matches Err(e) ==> e@ == (ErrorModel {
                kind: Kind::NullByte,
                message: None,
                session: None,
            })),
            r matches Ok(call) ==> (call matches SessionCall::LoadHipFile { session, name: n, cook: c }
                && session == self@.handle && n@ == encode_utf8(name@) && c == cook),
    {
        match self.live() {
            Err(e) => Err(e),
            Ok(session) => match NativeString::new(name) {
                Err(e) => Err(e),
                Ok(n) => Ok(SessionCall::LoadHipFile { session, name: n, cook }),
            },
        }
    }

    /// The call that merges a scene from a file into the session, or
    /// `NullByte` if the name holds a zero byte.
    pub fn merge_hip(&self, name: &str, cook: bool) -> (r: Result<SessionCall, HapiError>)
        ensures
            self@.closed ==> (r matches Err(e) && e@ == closed_error(self@.handle)),
            !self@.closed ==> (r is Err <==> has_nul(encode_utf8(name@))),
            !self@.closed ==> (r matches Err(e) ==> e@ == (ErrorModel {
                kind: Kind::NullByte,
                message: None,
                session: None,
            })),
            r matches Ok(call) ==> (call matches SessionCall::MergeHipFile {
                session,
                name: n,
                cook: c,
            } && session == self@.handle && n@ == encode_utf8(name@) && c == cook),
    {
        match self.live() {
            Err(e) => Err(e),
            Ok(session) => match NativeString::new(name) {
                Err(e) => Err(e),
                Ok(n) => Ok(SessionCall::MergeHipFile { session, name: n, cook }),
            },
        }
    }

    /// The call that asks the engine to abandon the cook in flight. The
    /// engine does so when it can; the call does not wait for it.
    pub fn interrupt(&self) -> (r: Result<SessionCall, HapiError>)
        ensures
            self@.closed ==> (r matches Err(e) && e@ == closed_error(self@.handle)),
            !self@.closed ==> (r matches Ok(SessionCall::Interrupt { session }) && session
                == self@.handle),
    {
        match self.live() {
            Err(e) => Err(e),
            Ok(session) => Ok(SessionCall::Interrupt { session }),
        }
    }

    /// The call that asks for a status.
    pub fn get_status(&self, flag: StatusType) -> (r: Result<SessionCall, HapiError>)
        ensures
            self@.closed ==> (r matches Err(e) && e@ == closed_error(self@.handle)),
            !self@.closed ==> (r matches Ok(SessionCall::GetStatus { session, status_type })
                && session == self@.handle && status_type == flag),
    {
        match self.live() {
            Err(e) => Err(e),
            Ok(session) => Ok(SessionCall::GetStatus { session, status_type: flag }),
        }
    }

    /// Whether the engine is cooking, from its answer to a query of the
    /// cook state.
    pub fn is_cooking(&self, code: i32, state: State) -> (r: Result<bool, HapiError>)
        ensures
            code == 0 ==> r == Ok::<bool, HapiError>(state == State::Cooking),
            code != 0 ==> (r matches Err(e) && e@ == engine_error(code as int, self@.handle)),
    {
        match translate(code, Some(self.handle), None) {
            Err(e) => Err(e),
            Ok(()) => Ok(
                match state {
                    State::Cooking => true,
                    _ => false,
                },
            ),
        }
    }

    /// One step of waiting for the end of a cook. `observed` is the cook
    /// state that the engine last reported, `None` before the first query.
    /// The caller makes the query, or the interrupt, and decides how long
    /// to wait between queries and when to give up.
    pub fn cook_result(&self, observed: Option<State>) -> (step: CookStep)
        ensures
            step == cook_step(self@.unsync, observed),
    {
        if !self.unsync {
            return CookStep::Done(CookResult::Succeeded);
        }
        match observed {
            Some(State::Ready) => CookStep::Done(CookResult::Succeeded),
            Some(State::ReadyWithFatalErrors) => CookStep::Interrupt,
            Some(State::ReadyWithCookErrors) => CookStep::Done(CookResult::Warnings),
            _ => CookStep::Poll,
        }
    }

    /// The end of a cook that was interrupted for its fatal errors: errored,
    /// or the error of the interrupt itself where that failed.
    pub fn cook_interrupted(&self, code: i32) -> (r: Result<CookResult, HapiError>)
        ensures
            code == 0 ==> r == Ok::<CookResult, HapiError>(CookResult::Errored),
            code != 0 ==> (r matches Err(e) && e@ == engine_error(code as int, self@.handle)),
    {
        match translate(code, Some(self.handle), None) {
            Err(e) => Err(e),
            Ok(()) => Ok(CookResult::Errored),
        }
    }

    /// One step of fetching a status string of this session.
    pub fn get_status_string(
        &self,
        status: StatusType,
        verbosity: StatusVerbosity,
        reply: Reply<u8>,
    ) -> (r: Result<Step<SessionCall, String>, HapiError>)
        ensures
            status_step(self@.handle, status, verbosity, reply, r),
    {
        get_status_string(self.handle, status, verbosity, reply)
    }

    /// One step of fetching the status of the last cook: the status string
    /// of the cook result.
    pub fn get_cook_status(&self, verbosity: StatusVerbosity, reply: Reply<u8>) -> (r: Result<
        Step<SessionCall, String>,
        HapiError,
    >)
        ensures
            status_step(self@.handle, StatusType::CookResult, verbosity, reply, r),
    {
        get_status_string(self.handle, StatusType::CookResult, verbosity, reply)
    }

    /// One step of fetching the text of the last connection error, which
    /// the engine keeps outside any session. `clear` asks the engine to
    /// forget the error once it is fetched.
    pub fn get_connection_error(clear: bool, reply: Reply<u8>) -> (r: Result<
        Step<SessionCall, String>,
        HapiError,
    >)
        ensures
            match reply {
                Reply::Start => r matches Ok(Step::Call(SessionCall::GetConnectionErrorLength)),
                Reply::Size { code, length } => if code != 0 {
                    r matches Err(e) && e@ == (ErrorModel {
                        kind: Kind::Hapi(classify(code as int)),
                        message: Some("HAPI_GetConnectionErrorLength failed"@),
                        session: None,
                    })
                } else if length <= 0 {
                    r matches Ok(Step::Done(text)) && text@.len() == 0
                } else {
                    r matches Ok(
                        Step::Call(SessionCall::GetConnectionError { length: n, clear: c }),
                    ) && n == length && c == clear
                },
                Reply::Data { code, length, values: bytes } => if code != 0 {
                    r matches Err(e) && e@ == (ErrorModel {
                        kind: Kind::Hapi(classify(code as int)),
                        message: Some("HAPI_GetConnectionError failed"@),
                        session: None,
                    })
                } else {
                    r matches Ok(Step::Done(text)) && text@ == text_of(
                        prefix(bytes@, length - 1),
                    )
                },
            },
    {
        match reply {
            Reply::Start => Ok(Step::Call(SessionCall::GetConnectionErrorLength)),
            Reply::Size { code, length } => {
                match translate(code, None, Some("HAPI_GetConnectionErrorLength failed")) {
                    Err(e) => Err(e),
                    Ok(()) => {
                        if length > 0 {
                            Ok(Step::Call(SessionCall::GetConnectionError { length, clear }))
                        } else {
                            Ok(Step::Done(String::new()))
                        }
                    },
                }
            },
            Reply::Data { code, length, values: bytes } => {
                match translate(code, None, Some("HAPI_GetConnectionError failed")) {
                    Err(e) => Err(e),
                    Ok(()) => {
                        let kept = without_terminator(bytes, length);
                        Ok(Step::Done(text_from_bytes(kept.as_slice())))
                    },
                }
            },
        }
    }

    /// The call that asks how many nodes the cook in flight takes in all.
    pub fn cooking_total_count(&self) -> (r: Result<SessionCall, HapiError>)
        ensures
            self@.closed ==> (r matches Err(e) && e@ == closed_error(self@.handle)),
            !self@.closed ==> (r matches Ok(SessionCall::GetCookingTotalCount { session })
                && session == self@.handle),
    {
        match self.live() {
            Err(e) => Err(e),
            Ok(session) => Ok(SessionCall::GetCookingTotalCount { session }),
        }
    }

    /// The call that asks how many nodes the cook in flight has done.
    pub fn cooking_current_count(&self) -> (r: Result<SessionCall, HapiError>)
        ensures
            self@.closed ==> (r matches Err(e) && e@ == closed_error(self@.handle)),
            !self@.closed ==> (r matches Ok(SessionCall::GetCookingCurrentCount { session })
                && session == self@.handle),
    {
        match self.live() {
            Err(e) => Err(e),
            Ok(session) => Ok(SessionCall::GetCookingCurrentCount { session }),
        }
    }
}

/// A session that is initialized refuses a second initialize as
/// `AlreadyInitialized` and stays as it was: open, initialized, with the
/// same owners. And the engine's own answer "already initialized" leaves an
/// open session initialized.
pub proof fn lemma_initialize_twice(s: SessionModel, unsync: bool, cleanup: bool, code: int)
    requires
        valid(s),
        !s.closed,
    ensures
        s.initialized ==> initialize_refusal(s) == Some(
            ErrorModel {
                kind: Kind::Hapi(HapiResult::AlreadyInitialized),
                message: None,
                session: Some(s.handle),
            },
        ) && with_policies(s, unsync, cleanup) == s,
        code == 0 || classify(code) == HapiResult::AlreadyInitialized ==> {
            let once = after_initialize(s, code);
            &&& once.initialized
            &&& !once.closed
            &&& once.owners == s.owners
            &&& initialize_refusal(once) == Some(
                ErrorModel {
                    kind: Kind::Hapi(HapiResult::AlreadyInitialized),
                    message: None,
                    session: Some(s.handle),
                },
            )
            &&& with_policies(once, unsync, cleanup) == once
        },
{
}

/// The teardown of a session is made at most once, and in order: a session
/// that still has owners after a release hands out nothing; the release of
/// the last share hands out cleanup, if it is due, before close; and a
/// session that was torn down hands out nothing again, whoever asks.
pub proof fn lemma_teardown_once(s: SessionModel)
    requires
        valid(s),
    ensures
        valid(released(s)),
        s.owners > 1 ==> release_plan(s).len() == 0 && released(s).closed == s.closed
            && released(s).initialized == s.initialized,
        s.owners <= 1 ==> release_plan(s) == teardown_plan(s) && released(s).closed,
        released(s).closed ==> release_plan(released(s)).len() == 0 && teardown_plan(released(s)).len()
            == 0,
        teardown_plan(s).len() > 0 ==> teardown_plan(s).last() == Teardown::Close,
        teardown_plan(s).len() <= 2,
        forall|i: int|
            0 <= i < teardown_plan(s).len() - 1 ==> teardown_plan(s)[i] == Teardown::Cleanup,
        !s.closed ==> teardown_plan(s).len() >= 1,
{
}

/// Two owners of one session: the first release hands out no call and
/// leaves the session open; the second hands out the whole teardown and
/// closes it; any release after that hands out nothing.
pub proof fn lemma_two_owners(s: SessionModel)
    requires
        valid(s),
        !s.closed,
        s.owners == 1,
    ensures
        release_plan(retained(s)).len() == 0,
        !released(retained(s)).closed,
        released(retained(s)) == s,
        release_plan(released(retained(s))) == teardown_plan(s),
        released(released(retained(s))).closed,
        release_plan(released(released(retained(s)))).len() == 0,
{
}

} // verus!
