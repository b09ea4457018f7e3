use etcd_workbench::error::{clean_server_message, AesError, ConnectError, ErrorType, EtcdError, LogicError};

fn shown(e: LogicError) -> (ErrorType, String) {
    let p = e.payload();
    (p.err_type, p.err_msg)
}

#[test]
fn server_statuses_are_classed() {
    let unauth = LogicError::from_etcd(EtcdError::GrpcStatus { code: 16, message: String::from("etcdserver: invalid auth token") });
    assert_eq!(shown(unauth), (ErrorType::Unauthenticated, String::from(" invalid auth token")));
    let denied = LogicError::EtcdClientError(EtcdError::GrpcStatus { code: 7, message: String::from("etcdserver: permission denied") });
    assert_eq!(shown(denied), (ErrorType::PermissionDenied, String::from(" permission denied")));
    let other = LogicError::EtcdClientError(EtcdError::GrpcStatus { code: 2, message: String::from("boom etcdserver:") });
    assert_eq!(shown(other), (ErrorType::EtcdClientError, String::from("boom etcdserver:")));
}

#[test]
fn every_prefix_occurrence_is_removed() {
    assert_eq!(clean_server_message("etcdserver: a etcdserver: b"), " a  b");
    assert_eq!(clean_server_message("plain"), "plain");
}

#[test]
fn other_errors_are_shown() {
    assert_eq!(shown(LogicError::ConnectionLose), (ErrorType::Unauthenticated, String::from("connection lose")));
    assert_eq!(shown(LogicError::ArgumentError), (ErrorType::ArgumentError, String::from("invalid argument")));
    assert_eq!(shown(LogicError::MsgError(String::from("m"))), (ErrorType::ResourceNotExist, String::from("m")));
    assert_eq!(shown(LogicError::ResourceNotExist(String::from("gone"))), (ErrorType::ResourceNotExist, String::from("gone")));
    assert_eq!(shown(LogicError::EtcdClientError(EtcdError::InvalidArgs(String::from("bad")))), (ErrorType::EtcdClientError, String::from("bad")));
    assert_eq!(shown(LogicError::EtcdClientError(EtcdError::Other(String::from("io")))), (ErrorType::EtcdClientError, String::from("io")));
    assert_eq!(shown(LogicError::SshError(String::from("s"))), (ErrorType::SshClientError, String::from("s")));
    assert_eq!(shown(LogicError::SshKeysError(String::from("k"))), (ErrorType::SshKeysError, String::from("k")));
    assert_eq!(shown(LogicError::IoError(String::from("i"))), (ErrorType::AppError, String::from("i")));
    assert_eq!(shown(LogicError::SerdeError(String::from("j"))), (ErrorType::AppError, String::from("j")));
    assert_eq!(shown(LogicError::ChannelRcvError(String::from("c"))), (ErrorType::AppError, String::from("c")));
    assert_eq!(shown(LogicError::StringConvertError), (ErrorType::AppError, String::from("Can not convert string with utf-8")));
    assert_eq!(shown(LogicError::LimitedError(12000)), (ErrorType::LimitedError, String::from("12000")));
    assert_eq!(shown(LogicError::AuthFailure(String::from("no"))), (ErrorType::AuthFailure, String::from("no")));
}

#[test]
fn aes_messages() {
    assert_eq!(AesError::InvalidKeyLength(String::from("3")).message(), "aes crypt error: InvalidKeyLength 3");
    assert_eq!(shown(LogicError::AesError(AesError::InvalidBlockLength)), (ErrorType::AppError, String::from("aes crypt error: InvalidBlockLength")));
    assert_eq!(AesError::TryFromSliceError.message(), "aes crypt error: TryFromSliceError");
}

#[test]
fn connect_errors() {
    assert!(matches!(LogicError::from_connect(ConnectError::AuthFailure), LogicError::AuthFailure(m) if m == "SSH connection rejected: authentication failure"));
    assert!(matches!(LogicError::from_connect(ConnectError::Timeout), LogicError::SshError(m) if m == "ssh connection timeout"));
    assert!(matches!(LogicError::from_connect(ConnectError::TransportError(String::from("t"))), LogicError::SshError(m) if m == "t"));
}
