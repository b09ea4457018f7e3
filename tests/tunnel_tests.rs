use etcd_workbench::event::EtcdConnectorHandler;
use etcd_workbench::connection::{SshIdentity, SshPrivateKey};
use etcd_workbench::error::ConnectError;
use etcd_workbench::event::DisconnectCase;
use etcd_workbench::tunnel::{
    auth_method, auth_result, dial_target, disconnect_report, stream_step, AcceptEvent, AcceptStep,
    AuthMethod, StreamEvent, StreamStep, TunnelControl,
};

#[test]
fn abort_twice_is_safe() {
    let mut t = TunnelControl::new(40123);
    assert_eq!(t.accept_step(AcceptEvent::Connection), AcceptStep::OpenChannel);
    assert!(t.abort());
    assert!(!t.abort());
    assert!(t.is_aborted());
    assert_eq!(t.get_proxy_port(), 40123);
    for e in [AcceptEvent::Connection, AcceptEvent::ChannelOpened, AcceptEvent::ChannelOpenFailed, AcceptEvent::ListenerFailed] {
        assert_eq!(t.accept_step(e), AcceptStep::Stop);
    }
    assert_eq!(stream_step(StreamEvent::Abort), StreamStep::Stop);
}

#[test]
fn stream_steps() {
    assert_eq!(stream_step(StreamEvent::TcpRead(0)), StreamStep::CloseChannel);
    assert_eq!(stream_step(StreamEvent::TcpRead(12)), StreamStep::ForwardToChannel);
    assert_eq!(stream_step(StreamEvent::TcpWouldBlock), StreamStep::KeepGoing);
    assert_eq!(stream_step(StreamEvent::ChannelData), StreamStep::ForwardToTcp);
    assert_eq!(stream_step(StreamEvent::ChannelEnded), StreamStep::ShutdownTcp);
    assert_eq!(stream_step(StreamEvent::WriteFailed), StreamStep::Stop);
}

#[test]
fn failures_before_abort() {
    let t = TunnelControl::new(1);
    assert_eq!(t.accept_step(AcceptEvent::ChannelOpenFailed), AcceptStep::ReportAndContinue);
    assert_eq!(t.accept_step(AcceptEvent::ListenerFailed), AcceptStep::ReportAndStop);
    assert_eq!(t.accept_step(AcceptEvent::ChannelOpened), AcceptStep::SpawnStream);
}

#[test]
fn key_wins_over_password() {
    let key = SshPrivateKey { key: vec![1], passphrase: None, hash_algorithm: None };
    let both = Some(SshIdentity { password: Some(String::from("p")), key: Some(key) });
    assert_eq!(auth_method(&both), AuthMethod::PublicKey);
    let pw = Some(SshIdentity { password: Some(String::from("p")), key: None });
    assert_eq!(auth_method(&pw), AuthMethod::Password);
    assert_eq!(auth_method(&None), AuthMethod::NoAuth);
}

#[test]
fn refused_credentials_are_auth_failure() {
    assert_eq!(auth_result(true), Ok(()));
    assert_eq!(auth_result(false), Err(ConnectError::AuthFailure));
}

#[test]
fn dial_through_tunnel() {
    let host = String::from("10.0.0.1");
    assert_eq!(dial_target(&host, 2379, None), (String::from("10.0.0.1"), 2379));
    assert_eq!(dial_target(&host, 2379, Some(5555)), (String::from("127.0.0.1"), 5555));
}

#[test]
fn orderly_close_is_not_reported() {
    assert_eq!(disconnect_report(true, String::from("x")), None);
    assert_eq!(
        disconnect_report(false, String::from("broken pipe")),
        Some(DisconnectCase::SshDisconnected(String::from("broken pipe")))
    );
}

#[test]
fn handler_reports_up() {
    let (event, teardown) = EtcdConnectorHandler::new(5).disconnected(DisconnectCase::SshChannelFailure);
    assert_eq!(event.session_id, 5);
    assert_eq!(event.case, DisconnectCase::SshChannelFailure);
    assert!(teardown);
    let (_, teardown) = EtcdConnectorHandler::default().disconnected(DisconnectCase::SshChannelEof);
    assert!(!teardown);
}

#[test]
fn lost_watch_is_its_own_case() {
    let (event, teardown) = EtcdConnectorHandler::new(2).disconnected(DisconnectCase::WatchLost(String::from("/a")));
    assert_eq!(event.case, DisconnectCase::WatchLost(String::from("/a")));
    assert!(teardown);
}
