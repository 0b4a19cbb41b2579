//! Result translation: every numeric result code of the engine is classified
//! into a closed set of kinds before it is surfaced, and an error can be
//! rendered as text with a diagnostic that is fetched only on demand.

use crate::session::NativeSession;
use vstd::prelude::*;

verus! {

/// The classified result of one native call.
#[derive(Debug, Clone, Copy, PartialEq, Eq, Structural)]
pub enum HapiResult {
    Success,
    Failure,
    AlreadyInitialized,
    NotInitialized,
    CantLoadfile,
    ParmSetFailed,
    InvalidArgument,
    CantLoadGeo,
    CantGeneratePreset,
    CantLoadPreset,
    AssetDefAlreadyLoaded,
    NoLicenseFound,
    DisallowedNcLicenseFound,
    DisallowedNcAssetWithCLicense,
    DisallowedNcAssetWithLcLicense,
    DisallowedLcAssetWithCLicense,
    DisallowedHengineindieW3partyPlugin,
    AssetInvalid,
    NodeInvalid,
    UserInterrupted,
    InvalidSession,
}

/// The kind of an error.
#[derive(Debug, Clone, Copy, PartialEq, Eq, Structural)]
pub enum Kind {
    /// The engine answered a call with a result other than success.
    Hapi(HapiResult),
    /// The channel to the engine could not be established.
    Connection(HapiResult),
    /// A cook ended in errors.
    CookError,
    /// A text meant for the engine holds a zero byte. Found before any call.
    NullByte,
    /// A failure of the library itself; the message says which.
    Other,
}

/// An error of this library: its kind, an optional fixed message, and the
/// session on which the failing call was made, if a diagnostic can be asked of it.
#[derive(Debug)]
pub struct HapiError {
    pub kind: Kind,
    pub message: Option<String>,
    pub session: Option<NativeSession>,
}

/// What an error is, with its message as a sequence of characters.
pub struct ErrorModel {
    pub kind: Kind,
    pub message: Option<Seq<char>>,
    pub session: Option<NativeSession>,
}

impl View for HapiError {
    type V = ErrorModel;

    open spec fn view(&self) -> ErrorModel {
        ErrorModel {
            kind: self.kind,
            message: match self.message {
                Some(m) => Some(m@),
                None => None,
            },
            session: self.session,
        }
    }
}

/// The result that a numeric code stands for. A code outside the engine's
/// table is a plain failure.
pub open spec fn classify(code: int) -> HapiResult {
    if code == 0 {
        HapiResult::Success
    } else if code == 2 {
        HapiResult::AlreadyInitialized
    } else if code == 3 {
        HapiResult::NotInitialized
    } else if code == 4 {
        HapiResult::CantLoadfile
    } else if code == 5 {
        HapiResult::ParmSetFailed
    } else if code == 6 {
        HapiResult::InvalidArgument
    } else if code == 7 {
        HapiResult::CantLoadGeo
    } else if code == 8 {
        HapiResult::CantGeneratePreset
    } else if code == 9 {
        HapiResult::CantLoadPreset
    } else if code == 10 {
        HapiResult::AssetDefAlreadyLoaded
    } else if code == 110 {
        HapiResult::NoLicenseFound
    } else if code == 120 {
        HapiResult::DisallowedNcLicenseFound
    } else if code == 130 {
        HapiResult::DisallowedNcAssetWithCLicense
    } else if code == 140 {
        HapiResult::DisallowedNcAssetWithLcLicense
    } else if code == 150 {
        HapiResult::DisallowedLcAssetWithCLicense
    } else if code == 160 {
        HapiResult::DisallowedHengineindieW3partyPlugin
    } else if code == 200 {
        HapiResult::AssetInvalid
    } else if code == 210 {
        HapiResult::NodeInvalid
    } else if code == 300 {
        HapiResult::UserInterrupted
    } else if code == 400 {
        HapiResult::InvalidSession
    } else {
        HapiResult::Failure
    }
}

/// The numeric code of a result.
pub open spec fn code_of(r: HapiResult) -> int {
    match r {
        HapiResult::Success => 0,
        HapiResult::Failure => 1,
        HapiResult::AlreadyInitialized => 2,
        HapiResult::NotInitialized => 3,
        HapiResult::CantLoadfile => 4,
        HapiResult::ParmSetFailed => 5,
        HapiResult::InvalidArgument => 6,
        HapiResult::CantLoadGeo => 7,
        HapiResult::CantGeneratePreset => 8,
        HapiResult::CantLoadPreset => 9,
        HapiResult::AssetDefAlreadyLoaded => 10,
        HapiResult::NoLicenseFound => 110,
        HapiResult::DisallowedNcLicenseFound => 120,
        HapiResult::DisallowedNcAssetWithCLicense => 130,
        HapiResult::DisallowedNcAssetWithLcLicense => 140,
        HapiResult::DisallowedLcAssetWithCLicense => 150,
        HapiResult::DisallowedHengineindieW3partyPlugin => 160,
        HapiResult::AssetInvalid => 200,
        HapiResult::NodeInvalid => 210,
        HapiResult::UserInterrupted => 300,
        HapiResult::InvalidSession => 400,
    }
}

/// The text that names a result.
pub open spec fn result_text(r: HapiResult) -> Seq<char> {
    match r {
        HapiResult::Success => "SUCCESS"@,
        HapiResult::Failure => "FAILURE"@,
        HapiResult::AlreadyInitialized => "ALREADY_INITIALIZED"@,
        HapiResult::NotInitialized => "NOT_INITIALIZED"@,
        HapiResult::CantLoadfile => "CANT_LOADFILE"@,
        HapiResult::ParmSetFailed => "PARM_SET_FAILED"@,
        HapiResult::InvalidArgument => "INVALID_ARGUMENT"@,
        HapiResult::CantLoadGeo => "CANT_LOAD_GEO"@,
        HapiResult::CantGeneratePreset => "CANT_GENERATE_PRESET"@,
        HapiResult::CantLoadPreset => "CANT_LOAD_PRESET"@,
        HapiResult::AssetDefAlreadyLoaded => "ASSET_DEF_ALREADY_LOADED"@,
        HapiResult::NoLicenseFound => "NO_LICENSE_FOUND"@,
        HapiResult::DisallowedNcLicenseFound => "DISALLOWED_NC_LICENSE_FOUND"@,
        HapiResult::DisallowedNcAssetWithCLicense => "DISALLOWED_NC_ASSET_WITH_C_LICENSE"@,
        HapiResult::DisallowedNcAssetWithLcLicense => "DISALLOWED_NC_ASSET_WITH_LC_LICENSE"@,
        HapiResult::DisallowedLcAssetWithCLicense => "DISALLOWED_LC_ASSET_WITH_C_LICENSE"@,
        HapiResult::DisallowedHengineindieW3partyPlugin => "DISALLOWED_HENGINEINDIE_W_3PARTY_PLUGIN"@,
        HapiResult::AssetInvalid => "ASSET_INVALID"@,
        HapiResult::NodeInvalid => "NODE_INVALID"@,
        HapiResult::UserInterrupted => "USER_INTERRUPTED"@,
        HapiResult::InvalidSession => "INVALID_SESSION"@,
    }
}

/// The text that describes a kind.
pub open spec fn kind_text(kind: Kind) -> Seq<char> {
    match kind {
        Kind::Hapi(r) => result_text(r),
        Kind::Connection(_) => "Connection failed"@,
        Kind::CookError => "Cooking error"@,
        Kind::NullByte => "String contains null byte!"@,
        Kind::Other => "Error"@,
    }
}

/// What stands after the description when an error is rendered for a session
/// that was asked for its diagnostic: the diagnostic, else the fixed message,
/// else a placeholder.
pub open spec fn detail_text(diagnostic: Option<Seq<char>>, message: Option<Seq<char>>) -> Seq<char> {
    match diagnostic {
        Some(d) => d,
        None => match message {
            Some(m) => m,
            None => "Zig"@,
        },
    }
}

/// The rendered text of an error. The diagnostic counts only where one is
/// asked for, see `diagnostic_session`.
pub open spec fn rendered(e: ErrorModel, diagnostic: Option<Seq<char>>) -> Seq<char> {
    if asks_diagnostic(e) {
        kind_text(e.kind) + ": "@ + detail_text(diagnostic, e.message)
    } else {
        match e.message {
            Some(m) => "Kind:"@ + kind_text(e.kind) + ", Message: "@ + m,
            None => "Kind:"@ + kind_text(e.kind),
        }
    }
}

/// Whether rendering an error asks the engine for the diagnostic of the last
/// call: only an engine failure that remembers its session does.
pub open spec fn asks_diagnostic(e: ErrorModel) -> bool {
    e.kind is Hapi && e.session is Some
}

/// What translating a result code yields.
pub open spec fn translated(
    code: int,
    session: Option<NativeSession>,
    message: Option<Seq<char>>,
) -> Result<(), ErrorModel> {
    if code == 0 {
        Ok(())
    } else {
        Err(ErrorModel { kind: Kind::Hapi(classify(code)), message, session })
    }
}

/// A result as a plain value, with the error by its view.
pub open spec fn outcome<T>(r: Result<T, HapiError>) -> Result<T, ErrorModel> {
    match r {
        Ok(v) => Ok(v),
        Err(e) => Err(e@),
    }
}

impl HapiResult {
    /// Classifies a numeric result code.
    pub fn from_code(code: i32) -> (r: HapiResult)
        ensures
            r == classify(code as int),
    {
        match code {
            0 => HapiResult::Success,
            2 => HapiResult::AlreadyInitialized,
            3 => HapiResult::NotInitialized,
            4 => HapiResult::CantLoadfile,
            5 => HapiResult::ParmSetFailed,
            6 => HapiResult::InvalidArgument,
            7 => HapiResult::CantLoadGeo,
            8 => HapiResult::CantGeneratePreset,
            9 => HapiResult::CantLoadPreset,
            10 => HapiResult::AssetDefAlreadyLoaded,
            110 => HapiResult::NoLicenseFound,
            120 => HapiResult::DisallowedNcLicenseFound,
            130 => HapiResult::DisallowedNcAssetWithCLicense,
            140 => HapiResult::DisallowedNcAssetWithLcLicense,
            150 => HapiResult::DisallowedLcAssetWithCLicense,
            160 => HapiResult::DisallowedHengineindieW3partyPlugin,
            200 => HapiResult::AssetInvalid,
            210 => HapiResult::NodeInvalid,
            300 => HapiResult::UserInterrupted,
            400 => HapiResult::InvalidSession,
            _ => HapiResult::Failure,
        }
    }

    /// The numeric code of this result.
    pub fn code(self) -> (c: i32)
        ensures
            c == code_of(self),
    {
        match self {
            HapiResult::Success => 0,
            HapiResult::Failure => 1,
            HapiResult::AlreadyInitialized => 2,
            HapiResult::NotInitialized => 3,
            HapiResult::CantLoadfile => 4,
            HapiResult::ParmSetFailed => 5,
            HapiResult::InvalidArgument => 6,
            HapiResult::CantLoadGeo => 7,
            HapiResult::CantGeneratePreset => 8,
            HapiResult::CantLoadPreset => 9,
            HapiResult::AssetDefAlreadyLoaded => 10,
            HapiResult::NoLicenseFound => 110,
            HapiResult::DisallowedNcLicenseFound => 120,
            HapiResult::DisallowedNcAssetWithCLicense => 130,
            HapiResult::DisallowedNcAssetWithLcLicense => 140,
            HapiResult::DisallowedLcAssetWithCLicense => 150,
            HapiResult::DisallowedHengineindieW3partyPlugin => 160,
            HapiResult::AssetInvalid => 200,
            HapiResult::NodeInvalid => 210,
            HapiResult::UserInterrupted => 300,
            HapiResult::InvalidSession => 400,
        }
    }

    /// The name of this result.
    pub fn description(self) -> (text: &'static str)
        ensures
            text@ == result_text(self),
    {
        match self {
            HapiResult::Success => "SUCCESS",
            HapiResult::Failure => "FAILURE",
            HapiResult::AlreadyInitialized => "ALREADY_INITIALIZED",
            HapiResult::NotInitialized => "NOT_INITIALIZED",
            HapiResult::CantLoadfile => "CANT_LOADFILE",
            HapiResult::ParmSetFailed => "PARM_SET_FAILED",
            HapiResult::InvalidArgument => "INVALID_ARGUMENT",
            HapiResult::CantLoadGeo => "CANT_LOAD_GEO",
            HapiResult::CantGeneratePreset => "CANT_GENERATE_PRESET",
            HapiResult::CantLoadPreset => "CANT_LOAD_PRESET",
            HapiResult::AssetDefAlreadyLoaded => "ASSET_DEF_ALREADY_LOADED",
            HapiResult::NoLicenseFound => "NO_LICENSE_FOUND",
            HapiResult::DisallowedNcLicenseFound => "DISALLOWED_NC_LICENSE_FOUND",
            HapiResult::DisallowedNcAssetWithCLicense => "DISALLOWED_NC_ASSET_WITH_C_LICENSE",
            HapiResult::DisallowedNcAssetWithLcLicense => "DISALLOWED_NC_ASSET_WITH_LC_LICENSE",
            HapiResult::DisallowedLcAssetWithCLicense => "DISALLOWED_LC_ASSET_WITH_C_LICENSE",
            HapiResult::DisallowedHengineindieW3partyPlugin => "DISALLOWED_HENGINEINDIE_W_3PARTY_PLUGIN",
            HapiResult::AssetInvalid => "ASSET_INVALID",
            HapiResult::NodeInvalid => "NODE_INVALID",
            HapiResult::UserInterrupted => "USER_INTERRUPTED",
            HapiResult::InvalidSession => "INVALID_SESSION",
        }
    }

    /// Success is `Ok`; any other result is an engine error that carries the
    /// given session and message.
    pub fn to_result(self, session: Option<NativeSession>, message: Option<&str>) -> (r: Result<
        (),
        HapiError,
    >)
        ensures
            outcome(r) == translated(
                code_of(self),
                session,
                match message {
                    Some(m) => Some(m@),
                    None => None,
                },
            ),
    {
        proof {
            lemma_code_round_trip(self);
        }
        match self {
            HapiResult::Success => Ok(()),
            e => {
                let message = match message {
                    Some(m) => Some(String::from_str(m)),
                    None => None,
                };
                Err(HapiError::new(Kind::Hapi(e), session, message))
            },
        }
    }

    /// Success is `Ok`; any other result is an engine error on that session,
    /// whose diagnostic can be asked for when the error is rendered.
    pub fn result_with_session(self, session: NativeSession) -> (r: Result<(), HapiError>)
        ensures
            outcome(r) == translated(code_of(self), Some(session), None),
    {
        self.to_result(Some(session), None)
    }

    /// Success is `Ok`; any other result is an engine error with a fixed message.
    pub fn result_with_message(self, msg: &str) -> (r: Result<(), HapiError>)
        ensures
            outcome(r) == translated(code_of(self), None, Some(msg@)),
    {
        self.to_result(None, Some(msg))
    }
}

/// Classifying the code of a result gives that result back, and success is
/// the only result whose code is zero.
pub proof fn lemma_code_round_trip(r: HapiResult)
    ensures
        classify(code_of(r)) == r,
        code_of(r) == 0 <==> r == HapiResult::Success,
{
}

/// A code is classified as success exactly when it is zero.
pub proof fn lemma_success_is_zero(code: int)
    ensures
        classify(code) == HapiResult::Success <==> code == 0,
{
}

/// Translates the numeric result code of a native call: zero is success,
/// anything else an engine error of the classified kind, with the session
/// (for a diagnostic on demand) and the fixed message that the caller gave.
pub fn translate(code: i32, session: Option<NativeSession>, message: Option<&str>) -> (r: Result<
    (),
    HapiError,
>)
    ensures
        outcome(r) == translated(
            code as int,
            session,
            match message {
                Some(m) => Some(m@),
                None => None,
            },
        ),
{
    if code == 0 {
        Ok(())
    } else {
        let message = match message {
            Some(m) => Some(String::from_str(m)),
            None => None,
        };
        Err(HapiError::new(Kind::Hapi(HapiResult::from_code(code)), session, message))
    }
}

impl Kind {
    /// A short description of the kind.
    pub fn description(&self) -> (text: &'static str)
        ensures
            text@ == kind_text(*self),
    {
        match self {
            Kind::Hapi(r) => r.description(),
            Kind::Connection(_) => "Connection failed",
            Kind::CookError => "Cooking error",
            Kind::NullByte => "String contains null byte!",
            Kind::Other => "Error",
        }
    }
}

impl HapiError {
    pub fn new(kind: Kind, session: Option<NativeSession>, message: Option<String>) -> (e:
        HapiError)
        ensures
            e.kind == kind,
            e.session == session,
            e.message == message,
    {
        HapiError { kind, session, message }
    }

    /// The error for a text that holds a zero byte.
    pub fn null_byte() -> (e: HapiError)
        ensures
            e@ == (ErrorModel { kind: Kind::NullByte, message: None, session: None }),
    {
        HapiError { kind: Kind::NullByte, session: None, message: None }
    }

    /// An engine-style error that the library raises itself, before any call.
    pub fn local(result: HapiResult, message: &str) -> (e: HapiError)
        ensures
            e@ == (ErrorModel { kind: Kind::Hapi(result), message: Some(message@), session: None }),
    {
        HapiError { kind: Kind::Hapi(result), session: None, message: Some(String::from_str(message)) }
    }

    /// The session to ask for the diagnostic of its last call before this
    /// error is rendered, if there is one. Nothing is fetched when the error
    /// is made; whoever renders it makes the call, and may skip it.
    pub fn diagnostic_session(&self) -> (s: Option<NativeSession>)
        ensures
            s is Some <==> asks_diagnostic(self@),
            s is Some ==> s == self.session,
    {
        match self.kind {
            Kind::Hapi(_) => self.session,
            _ => None,
        }
    }

    /// Renders the error. `diagnostic` is what the engine answered when asked
    /// for the diagnostic, `None` where it was not asked or the fetch failed:
    /// the text then falls back on the fixed message, or on a placeholder.
    pub fn render(&self, diagnostic: Option<&str>) -> (text: String)
        ensures
            text@ == rendered(
                self@,
                match diagnostic {
                    Some(d) => Some(d@),
                    None => None,
                },
            ),
    {
        let description = self.kind.description();
        if self.diagnostic_session().is_some() {
            let mut out = String::from_str(description);
            out.append(": ");
            match diagnostic {
                Some(d) => out.append(d),
                None => match &self.message {
                    Some(m) => out.append(m.as_str()),
                    None => out.append("Zig"),
                },
            }
            out
        } else {
            let mut out = String::from_str("Kind:");
            out.append(description);
            match &self.message {
                Some(m) => {
                    out.append(", Message: ");
                    out.append(m.as_str());
                },
                None => {},
            }
            out
        }
    }
}

} // verus!
