use xim::enums::Opcode;
use xim::session::{Phase, ProtocolViolation, Session};
use xim::types::{Connect, ConnectReply, Request, XimString};

fn connected() -> Session {
    let mut s = Session::new();
    s.send(Opcode::Connect).unwrap();
    s.receive(Opcode::ConnectReply).unwrap();
    s
}

fn opened() -> Session {
    let mut s = connected();
    s.receive(Opcode::OpenReply).unwrap();
    s
}

#[test]
fn connect_reply_needs_outstanding_connect() {
    // Without an outbound Connect, a ConnectReply is a violation.
    let mut s = Session::new();
    assert_eq!(
        s.receive(Opcode::ConnectReply),
        Err(ProtocolViolation { opcode: Opcode::ConnectReply, phase: Phase::PreConnect })
    );
    assert_eq!(s.phase, Phase::PreConnect);
    // After an outbound Connect, the same reply is the expected answer.
    s.send(Opcode::Connect).unwrap();
    assert_eq!(s.receive(Opcode::ConnectReply), Ok(()));
    assert_eq!(s.phase, Phase::Connected);
}

#[test]
fn ic_scoped_message_in_preconnect_is_violation() {
    let mut s = Session::new();
    assert_eq!(
        s.receive(Opcode::Commit),
        Err(ProtocolViolation { opcode: Opcode::Commit, phase: Phase::PreConnect })
    );
    assert_eq!(s, Session::new());
}

#[test]
fn typed_messages_drive_the_same_transitions() {
    let mut s = Session::new();
    let connect = Request::Connect(Connect {
        client_major_protocol_version: 1,
        client_minor_protocol_version: 0,
        client_auth_protocol_names: vec![XimString(b"auth".to_vec())],
    });
    let reply = Request::ConnectReply(ConnectReply {
        server_major_protocol_version: 1,
        server_minor_protocol_version: 0,
    });
    assert_eq!(
        s.receive_request(&reply),
        Err(ProtocolViolation { opcode: Opcode::ConnectReply, phase: Phase::PreConnect })
    );
    s.send_request(&connect).unwrap();
    s.receive_request(&reply).unwrap();
    assert_eq!(s.phase, Phase::Connected);
}

#[test]
fn double_connect_is_violation() {
    let mut s = Session::new();
    s.send(Opcode::Connect).unwrap();
    assert_eq!(
        s.send(Opcode::Connect),
        Err(ProtocolViolation { opcode: Opcode::Connect, phase: Phase::PreConnect })
    );
}

#[test]
fn ic_messages_need_a_live_context() {
    let mut s = opened();
    assert_eq!(
        s.receive(Opcode::Commit),
        Err(ProtocolViolation { opcode: Opcode::Commit, phase: Phase::Open })
    );
    s.receive(Opcode::CreateIcReply).unwrap();
    assert_eq!(s.ic_count, 1);
    assert_eq!(s.receive(Opcode::Commit), Ok(()));
    assert_eq!(s.receive(Opcode::SyncReply), Ok(()));
    s.receive(Opcode::DestroyIcReply).unwrap();
    assert_eq!(s.ic_count, 0);
    assert_eq!(
        s.receive(Opcode::Commit),
        Err(ProtocolViolation { opcode: Opcode::Commit, phase: Phase::Open })
    );
}

#[test]
fn preedit_drawing_needs_its_start() {
    let mut s = opened();
    s.receive(Opcode::CreateIcReply).unwrap();
    assert_eq!(
        s.receive(Opcode::PreeditDraw),
        Err(ProtocolViolation { opcode: Opcode::PreeditDraw, phase: Phase::Open })
    );
    s.receive(Opcode::PreeditStart).unwrap();
    assert!(s.preedit_active);
    s.receive(Opcode::PreeditDraw).unwrap();
    s.receive(Opcode::PreeditCaret).unwrap();
    s.receive(Opcode::PreeditDone).unwrap();
    assert!(!s.preedit_active);
    assert_eq!(
        s.receive(Opcode::PreeditCaret),
        Err(ProtocolViolation { opcode: Opcode::PreeditCaret, phase: Phase::Open })
    );
}

#[test]
fn status_drawing_needs_its_start() {
    let mut s = opened();
    s.receive(Opcode::CreateIcReply).unwrap();
    assert_eq!(
        s.receive(Opcode::StatusDraw),
        Err(ProtocolViolation { opcode: Opcode::StatusDraw, phase: Phase::Open })
    );
    s.receive(Opcode::StatusStart).unwrap();
    s.receive(Opcode::StatusDraw).unwrap();
    s.receive(Opcode::StatusDone).unwrap();
    assert!(!s.status_active);
}

#[test]
fn destroying_last_context_ends_drawing() {
    let mut s = opened();
    s.receive(Opcode::CreateIcReply).unwrap();
    s.receive(Opcode::PreeditStart).unwrap();
    s.receive(Opcode::DestroyIcReply).unwrap();
    assert_eq!(s.ic_count, 0);
    assert!(!s.preedit_active);
}

#[test]
fn close_needs_all_contexts_destroyed() {
    let mut s = opened();
    s.receive(Opcode::CreateIcReply).unwrap();
    assert_eq!(
        s.receive(Opcode::CloseReply),
        Err(ProtocolViolation { opcode: Opcode::CloseReply, phase: Phase::Open })
    );
    s.receive(Opcode::DestroyIcReply).unwrap();
    s.receive(Opcode::CloseReply).unwrap();
    assert_eq!(s.phase, Phase::Connected);
}

#[test]
fn full_lifecycle_ends_disconnected() {
    let mut s = Session::new();
    s.send(Opcode::Connect).unwrap();
    s.receive(Opcode::ConnectReply).unwrap();
    s.receive(Opcode::RegisterTriggerKeys).unwrap();
    s.receive(Opcode::OpenReply).unwrap();
    s.receive(Opcode::SetEventMask).unwrap();
    s.receive(Opcode::CreateIcReply).unwrap();
    s.receive(Opcode::Commit).unwrap();
    s.receive(Opcode::DestroyIcReply).unwrap();
    s.receive(Opcode::CloseReply).unwrap();
    s.send(Opcode::Disconnect).unwrap();
    s.receive(Opcode::DisconnectReply).unwrap();
    assert_eq!(s.phase, Phase::Disconnected);
    assert_eq!(
        s.send(Opcode::Connect),
        Err(ProtocolViolation { opcode: Opcode::Connect, phase: Phase::Disconnected })
    );
    assert_eq!(
        s.receive(Opcode::OpenReply),
        Err(ProtocolViolation { opcode: Opcode::OpenReply, phase: Phase::Disconnected })
    );
}

#[test]
fn method_messages_need_open_phase() {
    let mut s = connected();
    assert_eq!(
        s.receive(Opcode::QueryExtensionReply),
        Err(ProtocolViolation { opcode: Opcode::QueryExtensionReply, phase: Phase::Connected })
    );
    s.receive(Opcode::OpenReply).unwrap();
    assert_eq!(s.receive(Opcode::QueryExtensionReply), Ok(()));
}

#[test]
fn server_cannot_be_sent_server_messages() {
    let mut s = opened();
    assert_eq!(
        s.send(Opcode::Commit),
        Err(ProtocolViolation { opcode: Opcode::Commit, phase: Phase::Open })
    );
}
