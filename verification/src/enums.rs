//! Closed enumerations of the XIM wire format and integer-backed bitflag
//! sets.
//!
//! Every closed enumeration decodes from its raw wire integer through an
//! explicit fallible lookup: an integer with no corresponding variant is a
//! decode error, never an unchecked cast or a silent default. Bitflag
//! fields, by contrast, accept every bit pattern: unknown bits are
//! preserved so that re-encoding reproduces the input exactly, and strict
//! validation of the defined-bit mask is a separate, opt-in check.

use vstd::prelude::*;

verus! {

/// Major opcode of a XIM request, identifying the wire shape of its
/// payload.
#[derive(Copy, Clone, Debug, PartialEq, Eq, Structural)]
pub enum Opcode {
    Connect,
    ConnectReply,
    Disconnect,
    DisconnectReply,
    OpenReply,
    CloseReply,
    RegisterTriggerKeys,
    TriggerNotifyReply,
    SetEventMask,
    EncodingNegotiationReply,
    QueryExtensionReply,
    SetImValuesReply,
    GetImValuesReply,
    CreateIcReply,
    DestroyIcReply,
    SetIcValuesReply,
    GetIcValuesReply,
    SyncReply,
    Commit,
    ResetIcReply,
    Geometry,
    StrConversion,
    PreeditStart,
    PreeditDraw,
    PreeditCaret,
    PreeditDone,
    StatusStart,
    StatusDraw,
    StatusDone,
    PreeditState,
}

impl Opcode {
    /// The wire value of this opcode's major-opcode byte.
    pub open spec fn to_u8_spec(self) -> u8 {
        match self {
            Opcode::Connect => 1,
            Opcode::ConnectReply => 2,
            Opcode::Disconnect => 3,
            Opcode::DisconnectReply => 4,
            Opcode::OpenReply => 31,
            Opcode::CloseReply => 33,
            Opcode::RegisterTriggerKeys => 34,
            Opcode::TriggerNotifyReply => 36,
            Opcode::SetEventMask => 37,
            Opcode::EncodingNegotiationReply => 39,
            Opcode::QueryExtensionReply => 41,
            Opcode::SetImValuesReply => 43,
            Opcode::GetImValuesReply => 45,
            Opcode::CreateIcReply => 51,
            Opcode::DestroyIcReply => 53,
            Opcode::SetIcValuesReply => 55,
            Opcode::GetIcValuesReply => 57,
            Opcode::SyncReply => 62,
            Opcode::Commit => 63,
            Opcode::ResetIcReply => 65,
            Opcode::Geometry => 70,
            Opcode::StrConversion => 71,
            Opcode::PreeditStart => 73,
            Opcode::PreeditDraw => 75,
            Opcode::PreeditCaret => 76,
            Opcode::PreeditDone => 78,
            Opcode::StatusStart => 79,
            Opcode::StatusDraw => 80,
            Opcode::StatusDone => 81,
            Opcode::PreeditState => 82,
        }
    }

    /// The opcode denoted by a raw major-opcode byte, if any.
    pub open spec fn from_u8_spec(v: u8) -> Option<Opcode> {
        if v == 1 {
            Some(Opcode::Connect)
        } else if v == 2 {
            Some(Opcode::ConnectReply)
        } else if v == 3 {
            Some(Opcode::Disconnect)
        } else if v == 4 {
            Some(Opcode::DisconnectReply)
        } else if v == 31 {
            Some(Opcode::OpenReply)
        } else if v == 33 {
            Some(Opcode::CloseReply)
        } else if v == 34 {
            Some(Opcode::RegisterTriggerKeys)
        } else if v == 36 {
            Some(Opcode::TriggerNotifyReply)
        } else if v == 37 {
            Some(Opcode::SetEventMask)
        } else if v == 39 {
            Some(Opcode::EncodingNegotiationReply)
        } else if v == 41 {
            Some(Opcode::QueryExtensionReply)
        } else if v == 43 {
            Some(Opcode::SetImValuesReply)
        } else if v == 45 {
            Some(Opcode::GetImValuesReply)
        } else if v == 51 {
            Some(Opcode::CreateIcReply)
        } else if v == 53 {
            Some(Opcode::DestroyIcReply)
        } else if v == 55 {
            Some(Opcode::SetIcValuesReply)
        } else if v == 57 {
            Some(Opcode::GetIcValuesReply)
        } else if v == 62 {
            Some(Opcode::SyncReply)
        } else if v == 63 {
            Some(Opcode::Commit)
        } else if v == 65 {
            Some(Opcode::ResetIcReply)
        } else if v == 70 {
            Some(Opcode::Geometry)
        } else if v == 71 {
            Some(Opcode::StrConversion)
        } else if v == 73 {
            Some(Opcode::PreeditStart)
        } else if v == 75 {
            Some(Opcode::PreeditDraw)
        } else if v == 76 {
            Some(Opcode::PreeditCaret)
        } else if v == 78 {
            Some(Opcode::PreeditDone)
        } else if v == 79 {
            Some(Opcode::StatusStart)
        } else if v == 80 {
            Some(Opcode::StatusDraw)
        } else if v == 81 {
            Some(Opcode::StatusDone)
        } else if v == 82 {
            Some(Opcode::PreeditState)
        } else {
            None
        }
    }

    /// Encode this opcode as its major-opcode byte.
    pub fn to_u8(self) -> (r: u8)
        ensures
            r == self.to_u8_spec(),
    {
        match self {
            Opcode::Connect => 1,
            Opcode::ConnectReply => 2,
            Opcode::Disconnect => 3,
            Opcode::DisconnectReply => 4,
            Opcode::OpenReply => 31,
            Opcode::CloseReply => 33,
            Opcode::RegisterTriggerKeys => 34,
            Opcode::TriggerNotifyReply => 36,
            Opcode::SetEventMask => 37,
            Opcode::EncodingNegotiationReply => 39,
            Opcode::QueryExtensionReply => 41,
            Opcode::SetImValuesReply => 43,
            Opcode::GetImValuesReply => 45,
            Opcode::CreateIcReply => 51,
            Opcode::DestroyIcReply => 53,
            Opcode::SetIcValuesReply => 55,
            Opcode::GetIcValuesReply => 57,
            Opcode::SyncReply => 62,
            Opcode::Commit => 63,
            Opcode::ResetIcReply => 65,
            Opcode::Geometry => 70,
            Opcode::StrConversion => 71,
            Opcode::PreeditStart => 73,
            Opcode::PreeditDraw => 75,
            Opcode::PreeditCaret => 76,
            Opcode::PreeditDone => 78,
            Opcode::StatusStart => 79,
            Opcode::StatusDraw => 80,
            Opcode::StatusDone => 81,
            Opcode::PreeditState => 82,
        }
    }

    /// Decode a raw major-opcode byte into an opcode; `None` when the byte
    /// names no known opcode.
    pub fn from_u8(v: u8) -> (r: Option<Opcode>)
        ensures
            r == Opcode::from_u8_spec(v),
    {
        if v == 1 {
            Some(Opcode::Connect)
        } else if v == 2 {
            Some(Opcode::ConnectReply)
        } else if v == 3 {
            Some(Opcode::Disconnect)
        } else if v == 4 {
            Some(Opcode::DisconnectReply)
        } else if v == 31 {
            Some(Opcode::OpenReply)
        } else if v == 33 {
            Some(Opcode::CloseReply)
        } else if v == 34 {
            Some(Opcode::RegisterTriggerKeys)
        } else if v == 36 {
            Some(Opcode::TriggerNotifyReply)
        } else if v == 37 {
            Some(Opcode::SetEventMask)
        } else if v == 39 {
            Some(Opcode::EncodingNegotiationReply)
        } else if v == 41 {
            Some(Opcode::QueryExtensionReply)
        } else if v == 43 {
            Some(Opcode::SetImValuesReply)
        } else if v == 45 {
            Some(Opcode::GetImValuesReply)
        } else if v == 51 {
            Some(Opcode::CreateIcReply)
        } else if v == 53 {
            Some(Opcode::DestroyIcReply)
        } else if v == 55 {
            Some(Opcode::SetIcValuesReply)
        } else if v == 57 {
            Some(Opcode::GetIcValuesReply)
        } else if v == 62 {
            Some(Opcode::SyncReply)
        } else if v == 63 {
            Some(Opcode::Commit)
        } else if v == 65 {
            Some(Opcode::ResetIcReply)
        } else if v == 70 {
            Some(Opcode::Geometry)
        } else if v == 71 {
            Some(Opcode::StrConversion)
        } else if v == 73 {
            Some(Opcode::PreeditStart)
        } else if v == 75 {
            Some(Opcode::PreeditDraw)
        } else if v == 76 {
            Some(Opcode::PreeditCaret)
        } else if v == 78 {
            Some(Opcode::PreeditDone)
        } else if v == 79 {
            Some(Opcode::StatusStart)
        } else if v == 80 {
            Some(Opcode::StatusDraw)
        } else if v == 81 {
            Some(Opcode::StatusDone)
        } else if v == 82 {
            Some(Opcode::PreeditState)
        } else {
            None
        }
    }
}

/// The opcode-to-byte mapping is injective and decode inverts encode: every
/// opcode decodes back from its own wire byte, and a byte that decodes at
/// all decodes to the unique opcode carrying that byte.
pub proof fn lemma_opcode_wire_bijective(op: Opcode, v: u8)
    ensures
        Opcode::from_u8_spec(op.to_u8_spec()) == Some(op),
        Opcode::from_u8_spec(v) matches Some(o) ==> o.to_u8_spec() == v,
{
}

/// How the caret of an in-progress composition moves.
#[derive(Copy, Clone, Debug, PartialEq, Eq, Structural)]
pub enum CaretDirection {
    ForwardChar,
    BackwardChar,
    ForwardWord,
    BackwardWord,
    CaretUp,
    CaretDown,
    NextLine,
    PreviousLine,
    LineStart,
    LineEnd,
    AbsolutePosition,
    DontChange,
}

impl CaretDirection {
    /// The wire value of this direction.
    pub open spec fn to_u32_spec(self) -> u32 {
        match self {
            CaretDirection::ForwardChar => 0,
            CaretDirection::BackwardChar => 1,
            CaretDirection::ForwardWord => 2,
            CaretDirection::BackwardWord => 3,
            CaretDirection::CaretUp => 4,
            CaretDirection::CaretDown => 5,
            CaretDirection::NextLine => 6,
            CaretDirection::PreviousLine => 7,
            CaretDirection::LineStart => 8,
            CaretDirection::LineEnd => 9,
            CaretDirection::AbsolutePosition => 10,
            CaretDirection::DontChange => 11,
        }
    }

    /// The direction denoted by a raw wire integer, if any: exactly the
    /// values 0 through 11 are defined.
    pub open spec fn from_u32_spec(v: u32) -> Option<CaretDirection> {
        if v == 0 {
            Some(CaretDirection::ForwardChar)
        } else if v == 1 {
            Some(CaretDirection::BackwardChar)
        } else if v == 2 {
            Some(CaretDirection::ForwardWord)
        } else if v == 3 {
            Some(CaretDirection::BackwardWord)
        } else if v == 4 {
            Some(CaretDirection::CaretUp)
        } else if v == 5 {
            Some(CaretDirection::CaretDown)
        } else if v == 6 {
            Some(CaretDirection::NextLine)
        } else if v == 7 {
            Some(CaretDirection::PreviousLine)
        } else if v == 8 {
            Some(CaretDirection::LineStart)
        } else if v == 9 {
            Some(CaretDirection::LineEnd)
        } else if v == 10 {
            Some(CaretDirection::AbsolutePosition)
        } else if v == 11 {
            Some(CaretDirection::DontChange)
        } else {
            None
        }
    }

    /// Encode this direction as its wire integer.
    pub fn to_u32(self) -> (r: u32)
        ensures
            r == self.to_u32_spec(),
    {
        match self {
            CaretDirection::ForwardChar => 0,
            CaretDirection::BackwardChar => 1,
            CaretDirection::ForwardWord => 2,
            CaretDirection::BackwardWord => 3,
            CaretDirection::CaretUp => 4,
            CaretDirection::CaretDown => 5,
            CaretDirection::NextLine => 6,
            CaretDirection::PreviousLine => 7,
            CaretDirection::LineStart => 8,
            CaretDirection::LineEnd => 9,
            CaretDirection::AbsolutePosition => 10,
            CaretDirection::DontChange => 11,
        }
    }

    /// Decode a raw wire integer; `None` exactly when the integer is not
    /// among the 12 defined direction values.
    pub fn from_u32(v: u32) -> (r: Option<CaretDirection>)
        ensures
            r == CaretDirection::from_u32_spec(v),
            (r is None) <==> v >= 12,
            r matches Some(d) ==> d.to_u32_spec() == v,
    {
        if v == 0 {
            Some(CaretDirection::ForwardChar)
        } else if v == 1 {
            Some(CaretDirection::BackwardChar)
        } else if v == 2 {
            Some(CaretDirection::ForwardWord)
        } else if v == 3 {
            Some(CaretDirection::BackwardWord)
        } else if v == 4 {
            Some(CaretDirection::CaretUp)
        } else if v == 5 {
            Some(CaretDirection::CaretDown)
        } else if v == 6 {
            Some(CaretDirection::NextLine)
        } else if v == 7 {
            Some(CaretDirection::PreviousLine)
        } else if v == 8 {
            Some(CaretDirection::LineStart)
        } else if v == 9 {
            Some(CaretDirection::LineEnd)
        } else if v == 10 {
            Some(CaretDirection::AbsolutePosition)
        } else if v == 11 {
            Some(CaretDirection::DontChange)
        } else {
            None
        }
    }
}

/// How the caret of an in-progress composition is drawn.
#[derive(Copy, Clone, Debug, PartialEq, Eq, Structural)]
pub enum CaretStyle {
    Invisible,
    Primary,
    Secondary,
}

impl CaretStyle {
    /// The wire value of this style.
    pub open spec fn to_u32_spec(self) -> u32 {
        match self {
            CaretStyle::Invisible => 0,
            CaretStyle::Primary => 1,
            CaretStyle::Secondary => 2,
        }
    }

    /// The style denoted by a raw wire integer, if any.
    pub open spec fn from_u32_spec(v: u32) -> Option<CaretStyle> {
        if v == 0 {
            Some(CaretStyle::Invisible)
        } else if v == 1 {
            Some(CaretStyle::Primary)
        } else if v == 2 {
            Some(CaretStyle::Secondary)
        } else {
            None
        }
    }

    /// Encode this style as its wire integer.
    pub fn to_u32(self) -> (r: u32)
        ensures
            r == self.to_u32_spec(),
    {
        match self {
            CaretStyle::Invisible => 0,
            CaretStyle::Primary => 1,
            CaretStyle::Secondary => 2,
        }
    }

    /// Decode a raw wire integer; `None` exactly when the integer names no
    /// style.
    pub fn from_u32(v: u32) -> (r: Option<CaretStyle>)
        ensures
            r == CaretStyle::from_u32_spec(v),
            (r is None) <==> v >= 3,
            r matches Some(s) ==> s.to_u32_spec() == v,
    {
        if v == 0 {
            Some(CaretStyle::Invisible)
        } else if v == 1 {
            Some(CaretStyle::Primary)
        } else if v == 2 {
            Some(CaretStyle::Secondary)
        } else {
            None
        }
    }
}

/// Whether a hotkey-controlled input method is on or off.
#[derive(Copy, Clone, Debug, PartialEq, Eq, Structural)]
pub enum HotkeyState {
    On,
    Off,
}

impl HotkeyState {
    /// The wire value of this state.
    pub open spec fn to_u32_spec(self) -> u32 {
        match self {
            HotkeyState::On => 0x1,
            HotkeyState::Off => 0x2,
        }
    }

    /// The state denoted by a raw wire integer, if any.
    pub open spec fn from_u32_spec(v: u32) -> Option<HotkeyState> {
        if v == 0x1 {
            Some(HotkeyState::On)
        } else if v == 0x2 {
            Some(HotkeyState::Off)
        } else {
            None
        }
    }

    /// Decode a raw wire integer; `None` exactly when the integer names no
    /// state.
    pub fn from_u32(v: u32) -> (r: Option<HotkeyState>)
        ensures
            r == HotkeyState::from_u32_spec(v),
            r matches Some(s) ==> s.to_u32_spec() == v,
    {
        if v == 0x1 {
            Some(HotkeyState::On)
        } else if v == 0x2 {
            Some(HotkeyState::Off)
        } else {
            None
        }
    }
}

/// Whether preedit drawing is enabled for an input context.
#[derive(Copy, Clone, Debug, PartialEq, Eq, Structural)]
pub enum PreeditState {
    Enable,
    Disable,
}

impl PreeditState {
    /// The wire value of this state.
    pub open spec fn to_u32_spec(self) -> u32 {
        match self {
            PreeditState::Enable => 0x1,
            PreeditState::Disable => 0x2,
        }
    }

    /// The state denoted by a raw wire integer, if any.
    pub open spec fn from_u32_spec(v: u32) -> Option<PreeditState> {
        if v == 0x1 {
            Some(PreeditState::Enable)
        } else if v == 0x2 {
            Some(PreeditState::Disable)
        } else {
            None
        }
    }

    /// Decode a raw wire integer; `None` exactly when the integer names no
    /// state.
    pub fn from_u32(v: u32) -> (r: Option<PreeditState>)
        ensures
            r == PreeditState::from_u32_spec(v),
            r matches Some(s) ==> s.to_u32_spec() == v,
    {
        if v == 0x1 {
            Some(PreeditState::Enable)
        } else if v == 0x2 {
            Some(PreeditState::Disable)
        } else {
            None
        }
    }
}

/// What an input context keeps of its preedit when it is reset.
#[derive(Copy, Clone, Debug, PartialEq, Eq, Structural)]
pub enum ResetState {
    Initial,
    Preserve,
}

impl ResetState {
    /// The wire value of this state.
    pub open spec fn to_u32_spec(self) -> u32 {
        match self {
            ResetState::Initial => 0x1,
            ResetState::Preserve => 0x2,
        }
    }

    /// The state denoted by a raw wire integer, if any.
    pub open spec fn from_u32_spec(v: u32) -> Option<ResetState> {
        if v == 0x1 {
            Some(ResetState::Initial)
        } else if v == 0x2 {
            Some(ResetState::Preserve)
        } else {
            None
        }
    }

    /// Decode a raw wire integer; `None` exactly when the integer names no
    /// state.
    pub fn from_u32(v: u32) -> (r: Option<ResetState>)
        ensures
            r == ResetState::from_u32_spec(v),
            r matches Some(s) ==> s.to_u32_spec() == v,
    {
        if v == 0x1 {
            Some(ResetState::Initial)
        } else if v == 0x2 {
            Some(ResetState::Preserve)
        } else {
            None
        }
    }
}

/// One named bit of the string-conversion feedback field.
#[derive(Copy, Clone, Debug, PartialEq, Eq, Structural)]
pub enum StrConvFeedbackType {
    LeftEdge,
    RightEdge,
    TopEdge,
    BottomEdge,
    Convealed,
    Wrapped,
}

/// All bits of the string-conversion feedback field that carry a defined
/// meaning.
pub const STR_CONV_FEEDBACK_KNOWN_BITS: u16 = 0x3F;

impl StrConvFeedbackType {
    /// The single wire bit this flag occupies.
    pub open spec fn bit_spec(self) -> u16 {
        match self {
            StrConvFeedbackType::LeftEdge => 0x1,
            StrConvFeedbackType::RightEdge => 0x2,
            StrConvFeedbackType::TopEdge => 0x4,
            StrConvFeedbackType::BottomEdge => 0x8,
            StrConvFeedbackType::Convealed => 0x10,
            StrConvFeedbackType::Wrapped => 0x20,
        }
    }

    /// The wire bit of this flag.
    pub fn bit(self) -> (r: u16)
        ensures
            r == self.bit_spec(),
    {
        match self {
            StrConvFeedbackType::LeftEdge => 0x1,
            StrConvFeedbackType::RightEdge => 0x2,
            StrConvFeedbackType::TopEdge => 0x4,
            StrConvFeedbackType::BottomEdge => 0x8,
            StrConvFeedbackType::Convealed => 0x10,
            StrConvFeedbackType::Wrapped => 0x20,
        }
    }
}

/// A decoded string-conversion feedback field: the raw 16-bit pattern,
/// with every bit preserved whether or not it is defined.
#[derive(Copy, Clone, Debug, PartialEq, Eq, Structural)]
pub struct StrConvFeedbackSet {
    pub bits: u16,
}

impl StrConvFeedbackSet {
    /// The set with no bits.
    pub fn empty() -> (r: StrConvFeedbackSet)
        ensures
            r.bits == 0,
    {
        StrConvFeedbackSet { bits: 0 }
    }

    /// Accept any bit pattern from the wire, preserving unknown bits.
    pub fn from_bits(v: u16) -> (r: StrConvFeedbackSet)
        ensures
            r.bits == v,
    {
        StrConvFeedbackSet { bits: v }
    }

    /// The exact wire pattern this set re-encodes to.
    pub fn to_bits(self) -> (r: u16)
        ensures
            r == self.bits,
    {
        self.bits
    }

    /// Whether a defined flag's bit is set.
    pub fn contains(self, f: StrConvFeedbackType) -> (r: bool)
        ensures
            r == ((self.bits & f.bit_spec()) != 0),
    {
        (self.bits & f.bit()) != 0
    }

    /// The set with a defined flag's bit added.
    pub fn insert(self, f: StrConvFeedbackType) -> (r: StrConvFeedbackSet)
        ensures
            r.bits == (self.bits | f.bit_spec()),
    {
        StrConvFeedbackSet { bits: self.bits | f.bit() }
    }

    /// Whether every set bit is a defined flag; strict-mode callers treat
    /// a pattern failing this as a protocol error, tolerant callers keep
    /// it as is.
    pub fn is_strictly_valid(self) -> (r: bool)
        ensures
            r == ((self.bits & !STR_CONV_FEEDBACK_KNOWN_BITS) == 0),
    {
        (self.bits & !STR_CONV_FEEDBACK_KNOWN_BITS) == 0
    }
}

/// One named bit of the preedit-drawing feedback field.
#[derive(Copy, Clone, Debug, PartialEq, Eq, Structural)]
pub enum Feedback {
    Reverse,
    Underline,
    Highlight,
    Primary,
    Secondary,
    Tertiary,
    VisibleToForward,
    VisibleToBackward,
    VisibleToCenter,
}

/// All bits of the preedit feedback field that carry a defined meaning.
pub const FEEDBACK_KNOWN_BITS: u32 = 0x1FF;

impl Feedback {
    /// The single wire bit this flag occupies.
    pub open spec fn bit_spec(self) -> u32 {
        match self {
            Feedback::Reverse => 0x1,
            Feedback::Underline => 0x2,
            Feedback::Highlight => 0x4,
            Feedback::Primary => 0x8,
            Feedback::Secondary => 0x10,
            Feedback::Tertiary => 0x20,
            Feedback::VisibleToForward => 0x40,
            Feedback::VisibleToBackward => 0x80,
            Feedback::VisibleToCenter => 0x100,
        }
    }

    /// The wire bit of this flag.
    pub fn bit(self) -> (r: u32)
        ensures
            r == self.bit_spec(),
    {
        match self {
            Feedback::Reverse => 0x1,
            Feedback::Underline => 0x2,
            Feedback::Highlight => 0x4,
            Feedback::Primary => 0x8,
            Feedback::Secondary => 0x10,
            Feedback::Tertiary => 0x20,
            Feedback::VisibleToForward => 0x40,
            Feedback::VisibleToBackward => 0x80,
            Feedback::VisibleToCenter => 0x100,
        }
    }
}

/// A decoded preedit feedback field: the raw 32-bit pattern, with every
/// bit preserved whether or not it is defined, so that re-encoding
/// reproduces the input exactly.
#[derive(Copy, Clone, Debug, PartialEq, Eq, Structural)]
pub struct FeedbackSet {
    pub bits: u32,
}

impl FeedbackSet {
    /// The set with no bits.
    pub fn empty() -> (r: FeedbackSet)
        ensures
            r.bits == 0,
    {
        FeedbackSet { bits: 0 }
    }

    /// Accept any bit pattern from the wire, preserving unknown bits.
    pub fn from_bits(v: u32) -> (r: FeedbackSet)
        ensures
            r.bits == v,
    {
        FeedbackSet { bits: v }
    }

    /// The exact wire pattern this set re-encodes to.
    pub fn to_bits(self) -> (r: u32)
        ensures
            r == self.bits,
    {
        self.bits
    }

    /// Whether a defined flag's bit is set.
    pub fn contains(self, f: Feedback) -> (r: bool)
        ensures
            r == ((self.bits & f.bit_spec()) != 0),
    {
        (self.bits & f.bit()) != 0
    }

    /// The set with a defined flag's bit added.
    pub fn insert(self, f: Feedback) -> (r: FeedbackSet)
        ensures
            r.bits == (self.bits | f.bit_spec()),
    {
        FeedbackSet { bits: self.bits | f.bit() }
    }

    /// Whether every set bit is a defined flag; strict-mode callers treat
    /// a pattern failing this as a protocol error, tolerant callers keep
    /// it as is.
    pub fn is_strictly_valid(self) -> (r: bool)
        ensures
            r == ((self.bits & !FEEDBACK_KNOWN_BITS) == 0),
    {
        (self.bits & !FEEDBACK_KNOWN_BITS) == 0
    }
}

} // verus!
