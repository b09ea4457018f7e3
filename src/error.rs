//! The library's errors, and the payload each one is shown to the user as.

use vstd::prelude::*;
use vstd::string::StringExecFns;
use crate::reauth::CallOutcome;
use crate::text::{decimal_string, decimal_text, replace_text, replaced, text_starts_with};

verus! {

/// The gRPC status code of a call refused for an expired or missing token.
pub const STATUS_UNAUTHENTICATED: i32 = 16;

/// The gRPC status code of a call refused for missing permission.
pub const STATUS_PERMISSION_DENIED: i32 = 7;

/// What an etcd client call failed with, as plain values.
#[derive(Clone, Debug, PartialEq, Eq)]
pub enum EtcdError {
    /// A status sent by the server: its gRPC code and message.
    GrpcStatus { code: i32, message: String },
    /// The client refused the arguments.
    InvalidArgs(String),
    /// Any other failure of the client, by its text.
    Other(String),
}

/// How the re-authentication policy classes an error.
pub open spec fn outcome_of_error(e: EtcdError) -> CallOutcome {
    match e {
        EtcdError::GrpcStatus { code, .. } => if code == STATUS_UNAUTHENTICATED {
            CallOutcome::Unauthenticated
        } else {
            CallOutcome::OtherError
        },
        _ => CallOutcome::OtherError,
    }
}

/// Classes a call's result for the re-authentication policy.
pub fn call_outcome<T>(r: &Result<T, EtcdError>) -> (o: CallOutcome)
    ensures
        o == match r {
            Ok(_) => CallOutcome::Success,
            Err(e) => outcome_of_error(*e),
        },
{
    match r {
        Ok(_) => CallOutcome::Success,
        Err(EtcdError::GrpcStatus { code, .. }) => if *code == STATUS_UNAUTHENTICATED {
            CallOutcome::Unauthenticated
        } else {
            CallOutcome::OtherError
        },
        Err(_) => CallOutcome::OtherError,
    }
}

/// Why opening a connection failed.
#[derive(Clone, Debug, PartialEq, Eq)]
pub enum ConnectError {
    /// The credentials were refused.
    AuthFailure,
    /// The connection was not made in time.
    Timeout,
    /// The transport failed, by its text.
    TransportError(String),
}

/// Failures of the AES helpers of the settings store.
#[derive(Clone, Debug, PartialEq, Eq)]
pub enum AesError {
    InvalidKeyLength(String),
    InvalidBlockLength,
    TryFromSliceError,
}

/// Every failure the library reports.
#[derive(Clone, Debug)]
pub enum LogicError {
    MsgError(String),
    /// The session is not (or no longer) in the registry.
    ConnectionLose,
    ArgumentError,
    ResourceNotExist(String),
    EtcdClientError(EtcdError),
    /// Bad SSH credentials.
    AuthFailure(String),
    SshError(String),
    SshKeysError(String),
    IoError(String),
    SerdeError(String),
    AesError(AesError),
    ChannelRcvError(String),
    StringConvertError,
    /// An operation would touch more keys than the cap allows; it was not tried.
    LimitedError(i64),
}

/// The class of an error as the user sees it.
#[derive(Clone, Copy, Debug, PartialEq, Eq, Structural)]
pub enum ErrorType {
    Unauthenticated,
    EtcdClientError,
    SshClientError,
    SshKeysError,
    AppError,
    ArgumentError,
    ResourceNotExist,
    PermissionDenied,
    AuthFailure,
    LimitedError,
}

/// An error as it is shown: its class and message.
#[derive(Clone, Debug)]
pub struct ErrorPayload {
    pub err_type: ErrorType,
    pub err_msg: String,
}

/// The prefix etcd puts on its own messages.
pub open spec fn server_prefix() -> Seq<char> {
    "etcdserver:"@
}

/// A server message without etcd's prefix.
pub open spec fn cleaned_message(m: Seq<char>) -> Seq<char> {
    if server_prefix().len() <= m.len() && m.subrange(0, server_prefix().len() as int)
        == server_prefix() {
        replaced(m, server_prefix(), Seq::empty())
    } else {
        m
    }
}

/// The class of a server status code.
pub open spec fn status_type(code: i32) -> ErrorType {
    if code == STATUS_UNAUTHENTICATED {
        ErrorType::Unauthenticated
    } else if code == STATUS_PERMISSION_DENIED {
        ErrorType::PermissionDenied
    } else {
        ErrorType::EtcdClientError
    }
}

/// The message of an AES failure.
pub open spec fn aes_message(e: AesError) -> Seq<char> {
    match e {
        AesError::InvalidKeyLength(s) => "aes crypt error: InvalidKeyLength "@ + s@,
        AesError::InvalidBlockLength => "aes crypt error: InvalidBlockLength"@,
        AesError::TryFromSliceError => "aes crypt error: TryFromSliceError"@,
    }
}

/// The class and message an error is shown with.
pub open spec fn payload_of(e: LogicError) -> (ErrorType, Seq<char>) {
    match e {
        LogicError::MsgError(m) => (ErrorType::ResourceNotExist, m@),
        LogicError::ConnectionLose => (ErrorType::Unauthenticated, "connection lose"@),
        LogicError::ArgumentError => (ErrorType::ArgumentError, "invalid argument"@),
        LogicError::ResourceNotExist(m) => (ErrorType::ResourceNotExist, m@),
        LogicError::EtcdClientError(EtcdError::GrpcStatus { code, message }) => (
            status_type(code),
            cleaned_message(message@),
        ),
        LogicError::EtcdClientError(EtcdError::InvalidArgs(m)) => (ErrorType::EtcdClientError, m@),
        LogicError::EtcdClientError(EtcdError::Other(m)) => (ErrorType::EtcdClientError, m@),
        LogicError::AuthFailure(m) => (ErrorType::AuthFailure, m@),
        LogicError::SshError(m) => (ErrorType::SshClientError, m@),
        LogicError::SshKeysError(m) => (ErrorType::SshKeysError, m@),
        LogicError::IoError(m) => (ErrorType::AppError, m@),
        LogicError::SerdeError(m) => (ErrorType::AppError, m@),
        LogicError::AesError(a) => (ErrorType::AppError, aes_message(a)),
        LogicError::ChannelRcvError(m) => (ErrorType::AppError, m@),
        LogicError::StringConvertError => (
            ErrorType::AppError,
            "Can not convert string with utf-8"@,
        ),
        LogicError::LimitedError(n) => (ErrorType::LimitedError, decimal_text(n as int)),
    }
}

impl AesError {
    /// The message of the failure.
    pub fn message(&self) -> (r: String)
        ensures
            r@ == aes_message(*self),
    {
        match self {
            AesError::InvalidKeyLength(s) => {
                let mut m = "aes crypt error: InvalidKeyLength ".to_owned();
                m.append(s.as_str());
                m
            },
            AesError::InvalidBlockLength => "aes crypt error: InvalidBlockLength".to_owned(),
            AesError::TryFromSliceError => "aes crypt error: TryFromSliceError".to_owned(),
        }
    }
}

/// A server message without etcd's prefix.
pub fn clean_server_message(m: &str) -> (r: String)
    ensures
        r@ == cleaned_message(m@),
{
    proof {
        reveal_strlit("etcdserver:");
        reveal_strlit("");
        assert(""@ =~= Seq::<char>::empty());
    }
    if text_starts_with(m, "etcdserver:") {
        replace_text(m, "etcdserver:", "")
    } else {
        m.to_owned()
    }
}

impl LogicError {
    /// The class and message the error is shown with.
    pub fn payload(&self) -> (r: ErrorPayload)
        ensures
            (r.err_type, r.err_msg@) == payload_of(*self),
    {
        match self {
            LogicError::MsgError(m) => ErrorPayload {
                err_type: ErrorType::ResourceNotExist,
                err_msg: m.clone(),
            },
            LogicError::ConnectionLose => ErrorPayload {
                err_type: ErrorType::Unauthenticated,
                err_msg: "connection lose".to_owned(),
            },
            LogicError::ArgumentError => ErrorPayload {
                err_type: ErrorType::ArgumentError,
                err_msg: "invalid argument".to_owned(),
            },
            LogicError::ResourceNotExist(m) => ErrorPayload {
                err_type: ErrorType::ResourceNotExist,
                err_msg: m.clone(),
            },
            LogicError::EtcdClientError(e) => match e {
                EtcdError::GrpcStatus { code, message } => {
                    let err_type = if *code == STATUS_UNAUTHENTICATED {
                        ErrorType::Unauthenticated
                    } else if *code == STATUS_PERMISSION_DENIED {
                        ErrorType::PermissionDenied
                    } else {
                        ErrorType::EtcdClientError
                    };
                    ErrorPayload { err_type, err_msg: clean_server_message(message.as_str()) }
                },
                EtcdError::InvalidArgs(m) => ErrorPayload {
                    err_type: ErrorType::EtcdClientError,
                    err_msg: m.clone(),
                },
                EtcdError::Other(m) => ErrorPayload {
                    err_type: ErrorType::EtcdClientError,
                    err_msg: m.clone(),
                },
            },
            LogicError::AuthFailure(m) => ErrorPayload {
                err_type: ErrorType::AuthFailure,
                err_msg: m.clone(),
            },
            LogicError::SshError(m) => ErrorPayload {
                err_type: ErrorType::SshClientError,
                err_msg: m.clone(),
            },
            LogicError::SshKeysError(m) => ErrorPayload {
                err_type: ErrorType::SshKeysError,
                err_msg: m.clone(),
            },
            LogicError::IoError(m) => ErrorPayload { err_type: ErrorType::AppError, err_msg: m.clone() },
            LogicError::SerdeError(m) => ErrorPayload {
                err_type: ErrorType::AppError,
                err_msg: m.clone(),
            },
            LogicError::AesError(a) => ErrorPayload { err_type: ErrorType::AppError, err_msg: a.message() },
            LogicError::ChannelRcvError(m) => ErrorPayload {
                err_type: ErrorType::AppError,
                err_msg: m.clone(),
            },
            LogicError::StringConvertError => ErrorPayload {
                err_type: ErrorType::AppError,
                err_msg: "Can not convert string with utf-8".to_owned(),
            },
            LogicError::LimitedError(n) => ErrorPayload {
                err_type: ErrorType::LimitedError,
                err_msg: decimal_string(*n),
            },
        }
    }

    /// An etcd client failure.
    pub fn from_etcd(e: EtcdError) -> (r: LogicError)
        ensures
            r == LogicError::EtcdClientError(e),
    {
        LogicError::EtcdClientError(e)
    }

    /// A failure to open a connection: refused credentials stay apart from
    /// transport failures, so that the user can be asked for new ones.
    pub fn from_connect(e: ConnectError) -> (r: LogicError)
        ensures
            match e {
                ConnectError::AuthFailure => r matches LogicError::AuthFailure(m)
                    && m@ == "SSH connection rejected: authentication failure"@,
                ConnectError::Timeout => r matches LogicError::SshError(m)
                    && m@ == "ssh connection timeout"@,
                ConnectError::TransportError(t) => r == LogicError::SshError(t),
            },
    {
        match e {
            ConnectError::AuthFailure => LogicError::AuthFailure(
                "SSH connection rejected: authentication failure".to_owned(),
            ),
            ConnectError::Timeout => LogicError::SshError("ssh connection timeout".to_owned()),
            ConnectError::TransportError(m) => LogicError::SshError(m),
        }
    }
}

} // verus!
