//! Session state machine: tracks the protocol phase of one connection and
//! rejects messages that are legal on the wire but illegal in the current
//! phase. It is a validation filter over the codec; it performs no I/O.

use vstd::prelude::*;

use crate::enums::Opcode;

verus! {

/// The protocol phase of one connection.
#[derive(Copy, Clone, Debug, PartialEq, Eq, Structural)]
pub enum Phase {
    /// No connection has been established yet.
    PreConnect,
    /// The transport-level handshake is done; no input method is open.
    Connected,
    /// An input method is open; input contexts may exist.
    Open,
    /// The connection has been shut down; nothing more is legal.
    Disconnected,
}

/// A message legal on the wire but illegal in the current session phase:
/// the offending opcode together with the phase that refused it. This is
/// a local, recoverable verdict; the caller decides whether the session
/// ends.
#[derive(Copy, Clone, Debug, PartialEq, Eq, Structural)]
pub struct ProtocolViolation {
    pub opcode: Opcode,
    pub phase: Phase,
}

/// One connection's protocol state: its phase, the replies it is owed,
/// how many input contexts are alive, and whether a preedit or status
/// drawing exchange is in progress on the focused context.
#[derive(Copy, Clone, Debug, PartialEq, Eq, Structural)]
pub struct Session {
    pub phase: Phase,
    pub awaiting_connect_reply: bool,
    pub awaiting_disconnect_reply: bool,
    pub ic_count: u16,
    pub preedit_active: bool,
    pub status_active: bool,
}

impl Session {
    /// A fresh session: before the connection handshake, owing nothing,
    /// with no input contexts and no drawing in progress.
    pub fn new() -> (r: Session)
        ensures
            r == initial_session(),
    {
        Session {
            phase: Phase::PreConnect,
            awaiting_connect_reply: false,
            awaiting_disconnect_reply: false,
            ic_count: 0,
            preedit_active: false,
            status_active: false,
        }
    }
}

/// The state every session starts in.
pub open spec fn initial_session() -> Session {
    Session {
        phase: Phase::PreConnect,
        awaiting_connect_reply: false,
        awaiting_disconnect_reply: false,
        ic_count: 0,
        preedit_active: false,
        status_active: false,
    }
}

/// Internal consistency of a session: owed replies match the phase, and
/// drawing exchanges presuppose a live input context.
pub open spec fn session_wf(s: Session) -> bool {
    &&& s.awaiting_connect_reply ==> s.phase == Phase::PreConnect
    &&& s.awaiting_disconnect_reply ==> s.phase == Phase::Connected
    &&& s.ic_count > 0 ==> s.phase == Phase::Open
    &&& s.preedit_active ==> s.ic_count > 0
    &&& s.status_active ==> s.ic_count > 0
}

/// The transition taken when the client sends a message under this
/// opcode, or `None` when sending it is illegal in the current state. Of
/// the opcodes here, only the connection handshake requests travel from
/// client to server; the rest are server messages and may never be sent.
pub open spec fn send_step(s: Session, op: Opcode) -> Option<Session> {
    match op {
        Opcode::Connect => if s.phase == Phase::PreConnect && !s.awaiting_connect_reply {
            Some(Session { awaiting_connect_reply: true, ..s })
        } else {
            None
        },
        Opcode::Disconnect => if s.phase == Phase::Connected && !s.awaiting_disconnect_reply {
            Some(Session { awaiting_disconnect_reply: true, ..s })
        } else {
            None
        },
        _ => None,
    }
}

/// The transition taken when a message under this opcode arrives from the
/// server, or `None` when the message is illegal in the current state:
/// the connect reply only answers an outstanding `Connect`, method-scoped
/// messages need an open input method, context-scoped messages need a
/// live input context, and drawing messages need the exchange their
/// start message opened.
pub open spec fn recv_step(s: Session, op: Opcode) -> Option<Session> {
    match op {
        Opcode::ConnectReply => if s.phase == Phase::PreConnect && s.awaiting_connect_reply {
            Some(Session { phase: Phase::Connected, awaiting_connect_reply: false, ..s })
        } else {
            None
        },
        Opcode::DisconnectReply => if s.phase == Phase::Connected && s.awaiting_disconnect_reply {
            Some(Session { phase: Phase::Disconnected, awaiting_disconnect_reply: false, ..s })
        } else {
            None
        },
        Opcode::OpenReply => if s.phase == Phase::Connected && !s.awaiting_disconnect_reply {
            Some(Session { phase: Phase::Open, ..s })
        } else {
            None
        },
        Opcode::CloseReply => if s.phase == Phase::Open && s.ic_count == 0 {
            Some(Session { phase: Phase::Connected, ..s })
        } else {
            None
        },
        Opcode::RegisterTriggerKeys | Opcode::TriggerNotifyReply => if s.phase == Phase::Connected
            || s.phase == Phase::Open {
            Some(s)
        } else {
            None
        },
        Opcode::SetEventMask | Opcode::EncodingNegotiationReply | Opcode::QueryExtensionReply
            | Opcode::SetImValuesReply | Opcode::GetImValuesReply => if s.phase == Phase::Open {
            Some(s)
        } else {
            None
        },
        Opcode::CreateIcReply => if s.phase == Phase::Open && s.ic_count < 0xFFFF {
            Some(Session { ic_count: (s.ic_count + 1) as u16, ..s })
        } else {
            None
        },
        Opcode::DestroyIcReply => if s.phase == Phase::Open && s.ic_count > 0 {
            Some(
                Session {
                    ic_count: (s.ic_count - 1) as u16,
                    preedit_active: s.preedit_active && s.ic_count > 1,
                    status_active: s.status_active && s.ic_count > 1,
                    ..s
                },
            )
        } else {
            None
        },
        Opcode::SetIcValuesReply | Opcode::GetIcValuesReply | Opcode::SyncReply | Opcode::Commit
            | Opcode::ResetIcReply | Opcode::Geometry | Opcode::StrConversion
            | Opcode::PreeditState => if s.phase == Phase::Open && s.ic_count > 0 {
            Some(s)
        } else {
            None
        },
        Opcode::PreeditStart => if s.phase == Phase::Open && s.ic_count > 0 && !s.preedit_active {
            Some(Session { preedit_active: true, ..s })
        } else {
            None
        },
        Opcode::PreeditDraw | Opcode::PreeditCaret => if s.phase == Phase::Open
            && s.preedit_active {
            Some(s)
        } else {
            None
        },
        Opcode::PreeditDone => if s.phase == Phase::Open && s.preedit_active {
            Some(Session { preedit_active: false, ..s })
        } else {
            None
        },
        Opcode::StatusStart => if s.phase == Phase::Open && s.ic_count > 0 && !s.status_active {
            Some(Session { status_active: true, ..s })
        } else {
            None
        },
        Opcode::StatusDraw => if s.phase == Phase::Open && s.status_active {
            Some(s)
        } else {
            None
        },
        Opcode::StatusDone => if s.phase == Phase::Open && s.status_active {
            Some(Session { status_active: false, ..s })
        } else {
            None
        },
        Opcode::Connect | Opcode::Disconnect => None,
    }
}

/// Phase invariant: the initial session is consistent, and every legal
/// transition — sent or received — keeps a consistent session consistent.
pub proof fn lemma_steps_preserve_wf(s: Session, op: Opcode)
    ensures
        session_wf(initial_session()),
        session_wf(s) ==> (send_step(s, op) matches Some(t) ==> session_wf(t)),
        session_wf(s) ==> (recv_step(s, op) matches Some(t) ==> session_wf(t)),
{
}

impl Session {
    /// Validate and apply an outbound message: legal sends take the
    /// transition `send_step` describes, illegal ones leave the session
    /// untouched and name the offending opcode and the refusing phase.
    pub fn send(&mut self, op: Opcode) -> (r: Result<(), ProtocolViolation>)
        ensures
            send_step(*old(self), op) matches Some(t) ==> r is Ok && *final(self) == t,
            send_step(*old(self), op) is None ==> r == Err::<(), ProtocolViolation>(
                ProtocolViolation { opcode: op, phase: old(self).phase },
            ) && *final(self) == *old(self),
    {
        match op {
            Opcode::Connect => {
                if self.phase == Phase::PreConnect && !self.awaiting_connect_reply {
                    self.awaiting_connect_reply = true;
                    Ok(())
                } else {
                    Err(ProtocolViolation { opcode: op, phase: self.phase })
                }
            },
            Opcode::Disconnect => {
                if self.phase == Phase::Connected && !self.awaiting_disconnect_reply {
                    self.awaiting_disconnect_reply = true;
                    Ok(())
                } else {
                    Err(ProtocolViolation { opcode: op, phase: self.phase })
                }
            },
            _ => Err(ProtocolViolation { opcode: op, phase: self.phase }),
        }
    }

    /// Validate and apply an inbound message: legal arrivals take the
    /// transition `recv_step` describes, illegal ones leave the session
    /// untouched and name the offending opcode and the refusing phase.
    pub fn receive(&mut self, op: Opcode) -> (r: Result<(), ProtocolViolation>)
        ensures
            recv_step(*old(self), op) matches Some(t) ==> r is Ok && *final(self) == t,
            recv_step(*old(self), op) is None ==> r == Err::<(), ProtocolViolation>(
                ProtocolViolation { opcode: op, phase: old(self).phase },
            ) && *final(self) == *old(self),
    {
        let ghost step = recv_step(*self, op);
        let allowed: bool = match op {
            Opcode::ConnectReply => self.phase == Phase::PreConnect
                && self.awaiting_connect_reply,
            Opcode::DisconnectReply => self.phase == Phase::Connected
                && self.awaiting_disconnect_reply,
            Opcode::OpenReply => self.phase == Phase::Connected
                && !self.awaiting_disconnect_reply,
            Opcode::CloseReply => self.phase == Phase::Open && self.ic_count == 0,
            Opcode::RegisterTriggerKeys | Opcode::TriggerNotifyReply => self.phase
                == Phase::Connected || self.phase == Phase::Open,
            Opcode::SetEventMask | Opcode::EncodingNegotiationReply
                | Opcode::QueryExtensionReply | Opcode::SetImValuesReply
                | Opcode::GetImValuesReply => self.phase == Phase::Open,
            Opcode::CreateIcReply => self.phase == Phase::Open && self.ic_count < 0xFFFF,
            Opcode::DestroyIcReply => self.phase == Phase::Open && self.ic_count > 0,
            Opcode::SetIcValuesReply | Opcode::GetIcValuesReply | Opcode::SyncReply
                | Opcode::Commit | Opcode::ResetIcReply | Opcode::Geometry
                | Opcode::StrConversion | Opcode::PreeditState => self.phase == Phase::Open
                && self.ic_count > 0,
            Opcode::PreeditStart => self.phase == Phase::Open && self.ic_count > 0
                && !self.preedit_active,
            Opcode::PreeditDraw | Opcode::PreeditCaret => self.phase == Phase::Open
                && self.preedit_active,
            Opcode::PreeditDone => self.phase == Phase::Open && self.preedit_active,
            Opcode::StatusStart => self.phase == Phase::Open && self.ic_count > 0
                && !self.status_active,
            Opcode::StatusDraw => self.phase == Phase::Open && self.status_active,
            Opcode::StatusDone => self.phase == Phase::Open && self.status_active,
            Opcode::Connect | Opcode::Disconnect => false,
        };
        if !allowed {
            assert(step is None);
            return Err(ProtocolViolation { opcode: op, phase: self.phase });
        }
        match op {
            Opcode::ConnectReply => {
                self.phase = Phase::Connected;
                self.awaiting_connect_reply = false;
            },
            Opcode::DisconnectReply => {
                self.phase = Phase::Disconnected;
                self.awaiting_disconnect_reply = false;
            },
            Opcode::OpenReply => {
                self.phase = Phase::Open;
            },
            Opcode::CloseReply => {
                self.phase = Phase::Connected;
            },
            Opcode::CreateIcReply => {
                self.ic_count = self.ic_count + 1;
            },
            Opcode::DestroyIcReply => {
                self.ic_count = self.ic_count - 1;
                if self.ic_count == 0 {
                    self.preedit_active = false;
                    self.status_active = false;
                }
            },
            Opcode::PreeditStart => {
                self.preedit_active = true;
            },
            Opcode::PreeditDone => {
                self.preedit_active = false;
            },
            Opcode::StatusStart => {
                self.status_active = true;
            },
            Opcode::StatusDone => {
                self.status_active = false;
            },
            _ => {},
        }
        assert(step matches Some(t) && *self == t);
        Ok(())
    }

    /// Validate and apply an outbound typed message by its opcode.
    pub fn send_request(&mut self, m: &crate::types::Request) -> (r: Result<
        (),
        ProtocolViolation,
    >)
        ensures
            send_step(*old(self), crate::types::view_opcode(m@)) matches Some(t) ==> r is Ok
                && *final(self) == t,
            send_step(*old(self), crate::types::view_opcode(m@)) is None ==> r == Err::<
                (),
                ProtocolViolation,
            >(
                ProtocolViolation {
                    opcode: crate::types::view_opcode(m@),
                    phase: old(self).phase,
                },
            ) && *final(self) == *old(self),
    {
        let op = m.opcode();
        self.send(op)
    }

    /// Validate and apply an inbound typed message by its opcode.
    pub fn receive_request(&mut self, m: &crate::types::Request) -> (r: Result<
        (),
        ProtocolViolation,
    >)
        ensures
            recv_step(*old(self), crate::types::view_opcode(m@)) matches Some(t) ==> r is Ok
                && *final(self) == t,
            recv_step(*old(self), crate::types::view_opcode(m@)) is None ==> r == Err::<
                (),
                ProtocolViolation,
            >(
                ProtocolViolation {
                    opcode: crate::types::view_opcode(m@),
                    phase: old(self).phase,
                },
            ) && *final(self) == *old(self),
    {
        let op = m.opcode();
        self.receive(op)
    }
}

} // verus!
