//! The messages the client sends over the gateway, as values.
//!
//! Each payload names its opcode and every field of its `d` object; turning a
//! payload into JSON text is a one-to-one mapping of these fields to keys.

use vstd::prelude::*;
use vstd::string::*;
use crate::fingerprint::{Fingerprint, FingerprintView};

verus! {

/// Opcode of a dispatched event.
pub const OP_DISPATCH: u64 = 0;
/// Opcode of a heartbeat, sent by either side.
pub const OP_HEARTBEAT: u64 = 1;
/// Opcode of an Identify payload.
pub const OP_IDENTIFY: u64 = 2;
/// Opcode of a Presence Update payload.
pub const OP_PRESENCE_UPDATE: u64 = 3;
/// Opcode of a Resume payload.
pub const OP_RESUME: u64 = 6;
/// Opcode of a server request to reconnect.
pub const OP_RECONNECT: u64 = 7;
/// Opcode of an Invalid Session notice.
pub const OP_INVALID_SESSION: u64 = 9;
/// Opcode of the server's Hello.
pub const OP_HELLO: u64 = 10;
/// Opcode of a heartbeat acknowledgement.
pub const OP_HEARTBEAT_ACK: u64 = 11;

/// The `capabilities` bit set that the web client announces in Identify.
pub const IDENTIFY_CAPABILITIES: u64 = 8189;

/// The `client_state` object of an Identify payload (its `guild_hashes` is
/// always the empty object).
#[derive(Debug, Clone)]
pub struct ClientState {
    pub highest_last_message_id: String,
    pub read_state_version: u64,
    pub user_guild_settings_version: i64,
    pub user_settings_version: i64,
}

/// The `d` object of an Identify payload. Its `presence` object holds
/// `status`, `since`, `afk` and an empty `activities` list.
#[derive(Debug, Clone)]
pub struct IdentifyPayload {
    pub token: String,
    pub capabilities: u64,
    pub properties: Fingerprint,
    pub status: String,
    pub since: u64,
    pub afk: bool,
    pub compress: bool,
    pub client_state: ClientState,
}

/// A message the client sends to the gateway.
#[derive(Debug, Clone)]
pub enum Payload {
    /// OP 1: `d` is the last sequence number, or null.
    Heartbeat { seq: Option<i64> },
    /// OP 2.
    Identify(IdentifyPayload),
    /// OP 3: `since` is null, `activities` empty and `afk` false.
    PresenceUpdate { status: String },
    /// OP 6: `seq` is the last sequence number, or null.
    Resume { token: String, session_id: String, seq: Option<i64> },
}

/// The mathematical value of a [`ClientState`].
pub struct ClientStateView {
    pub highest_last_message_id: Seq<char>,
    pub read_state_version: u64,
    pub user_guild_settings_version: i64,
    pub user_settings_version: i64,
}

/// The mathematical value of an [`IdentifyPayload`].
pub struct IdentifyPayloadView {
    pub token: Seq<char>,
    pub capabilities: u64,
    pub properties: FingerprintView,
    pub status: Seq<char>,
    pub since: u64,
    pub afk: bool,
    pub compress: bool,
    pub client_state: ClientStateView,
}

/// The mathematical value of a [`Payload`].
pub enum PayloadView {
    Heartbeat { seq: Option<i64> },
    Identify(IdentifyPayloadView),
    PresenceUpdate { status: Seq<char> },
    Resume { token: Seq<char>, session_id: Seq<char>, seq: Option<i64> },
}

impl View for ClientState {
    type V = ClientStateView;

    open spec fn view(&self) -> ClientStateView {
        ClientStateView {
            highest_last_message_id: self.highest_last_message_id@,
            read_state_version: self.read_state_version,
            user_guild_settings_version: self.user_guild_settings_version,
            user_settings_version: self.user_settings_version,
        }
    }
}

impl View for IdentifyPayload {
    type V = IdentifyPayloadView;

    open spec fn view(&self) -> IdentifyPayloadView {
        IdentifyPayloadView {
            token: self.token@,
            capabilities: self.capabilities,
            properties: self.properties@,
            status: self.status@,
            since: self.since,
            afk: self.afk,
            compress: self.compress,
            client_state: self.client_state@,
        }
    }
}

impl View for Payload {
    type V = PayloadView;

    open spec fn view(&self) -> PayloadView {
        match self {
            Payload::Heartbeat { seq } => PayloadView::Heartbeat { seq: *seq },
            Payload::Identify(p) => PayloadView::Identify(p@),
            Payload::PresenceUpdate { status } => PayloadView::PresenceUpdate { status: status@ },
            Payload::Resume { token, session_id, seq } => PayloadView::Resume {
                token: token@,
                session_id: session_id@,
                seq: *seq,
            },
        }
    }
}

/// The opcode that a payload is sent with.
pub open spec fn spec_opcode(p: PayloadView) -> u64 {
    match p {
        PayloadView::Heartbeat { .. } => OP_HEARTBEAT,
        PayloadView::Identify(_) => OP_IDENTIFY,
        PayloadView::PresenceUpdate { .. } => OP_PRESENCE_UPDATE,
        PayloadView::Resume { .. } => OP_RESUME,
    }
}

impl Payload {
    /// The opcode that this payload is sent with.
    pub fn opcode(&self) -> (op: u64)
        ensures
            op == spec_opcode(self@),
    {
        match self {
            Payload::Heartbeat { .. } => OP_HEARTBEAT,
            Payload::Identify(_) => OP_IDENTIFY,
            Payload::PresenceUpdate { .. } => OP_PRESENCE_UPDATE,
            Payload::Resume { .. } => OP_RESUME,
        }
    }
}

/// The sequence number as sent on the wire: a negative one stands for "none yet".
pub open spec fn seq_or_null(seq: i64) -> Option<i64> {
    if seq < 0 {
        None
    } else {
        Some(seq)
    }
}

/// The sequence number as sent on the wire.
pub fn wire_seq(seq: i64) -> (r: Option<i64>)
    ensures
        r == seq_or_null(seq),
{
    if seq < 0 {
        None
    } else {
        Some(seq)
    }
}

/// The `client_state` that the web client sends with Identify.
pub open spec fn spec_client_state() -> ClientStateView {
    ClientStateView {
        highest_last_message_id: "0"@,
        read_state_version: 0,
        user_guild_settings_version: -1i64,
        user_settings_version: -1i64,
    }
}

/// The Identify payload for a token, a status and a fingerprint.
pub open spec fn spec_identify(
    token: Seq<char>,
    status: Seq<char>,
    fp: FingerprintView,
) -> PayloadView {
    PayloadView::Identify(
        IdentifyPayloadView {
            token: token,
            capabilities: IDENTIFY_CAPABILITIES,
            properties: fp,
            status: status,
            since: 0,
            afk: false,
            compress: false,
            client_state: spec_client_state(),
        },
    )
}

/// The Identify payload carries the token, the status and the whole
/// fingerprint it was built from, with the web client's capabilities, an
/// unhurried presence (since 0, not away) and an uncompressed stream.
pub proof fn lemma_identify_carries_inputs(token: Seq<char>, status: Seq<char>, fp: FingerprintView)
    ensures
        spec_identify(token, status, fp) matches PayloadView::Identify(i) && i.token == token
            && i.status == status && i.properties == fp && i.capabilities == 8189 && i.since == 0
            && !i.afk && !i.compress,
        spec_opcode(spec_identify(token, status, fp)) == 2,
{
}

/// Builds the OP 3 Presence Update payload.
pub fn presence_update_payload(status: &str) -> (p: Payload)
    ensures
        p@ == (PayloadView::PresenceUpdate { status: status@ }),
{
    Payload::PresenceUpdate { status: String::from_str(status) }
}

/// Builds the OP 2 Identify payload.
pub fn build_identify_payload(token: &str, status: &str, fp: &Fingerprint) -> (p: Payload)
    ensures
        p@ == spec_identify(token@, status@, fp@),
        p@ matches PayloadView::Identify(i) && i.properties == fp@ && i.token == token@ && i.status
            == status@ && i.capabilities == 8189 && i.since == 0 && !i.afk && !i.compress,
{
    Payload::Identify(
        IdentifyPayload {
            token: String::from_str(token),
            capabilities: IDENTIFY_CAPABILITIES,
            properties: fp.duplicate(),
            status: String::from_str(status),
            since: 0,
            afk: false,
            compress: false,
            client_state: ClientState {
                highest_last_message_id: String::from_str("0"),
                read_state_version: 0,
                user_guild_settings_version: -1,
                user_settings_version: -1,
            },
        },
    )
}

/// Builds the OP 6 Resume payload for a session and the last sequence number.
pub fn build_resume_payload(token: &str, session_id: &str, last_seq: i64) -> (p: Payload)
    ensures
        p@ == (PayloadView::Resume {
            token: token@,
            session_id: session_id@,
            seq: seq_or_null(last_seq),
        }),
{
    Payload::Resume {
        token: String::from_str(token),
        session_id: String::from_str(session_id),
        seq: wire_seq(last_seq),
    }
}

} // verus!
