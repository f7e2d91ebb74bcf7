//! The decisions of the login handshake.
//!
//! After the auth packet is sent, the server first answers with an empty
//! response value, which is skipped whatever it holds, and then with the auth
//! response, whose id is -1 when the password was refused. Sending and
//! receiving are the caller's; this module says what each incoming item
//! means.

use vstd::prelude::*;
use vstd::slice::slice_to_vec;

use super::packet::{no_nul, Packet, PacketView};
use super::packet_type::PacketType;

verus! {

/// The id of the auth response that refuses the password.
pub const INVALID_RCON_ID: i32 = -1;

/// Why a login failed.
#[derive(Debug, Clone, Copy, PartialEq, Eq, Structural)]
pub enum ConnectError {
    /// The server answered the auth request with id -1.
    InvalidPassword,
    /// The stream ended before the auth response came.
    ConnectionClosed,
}

/// Where the login stands.
#[derive(Debug, Clone, Copy, PartialEq, Eq, Structural)]
pub enum Handshake {
    /// The auth request is sent; the next item is skipped.
    AwaitingFirstResponse,
    /// The next item is the auth response.
    AwaitingAuthResponse,
    /// The server accepted the password.
    Authenticated,
    /// The login failed.
    Failed(ConnectError),
}

/// The auth request for the password.
pub open spec fn auth_request(rcon_password: Seq<u8>) -> PacketView {
    PacketView { id: 0, net_type: PacketType::SERVERDATA_AUTH, body: rcon_password }
}

/// The auth request is the password itself, whole and unchanged, sent as an
/// auth packet with id 0, for every password.
pub proof fn lemma_auth_request_carries_password(rcon_password: Seq<u8>)
    ensures
        auth_request(rcon_password).id == 0,
        auth_request(rcon_password).net_type == PacketType::SERVERDATA_AUTH,
        auth_request(rcon_password).body == rcon_password,
        auth_request(rcon_password).body.len() == rcon_password.len(),
{
}

/// The state after one more item of the incoming stream; `None` stands for
/// the end of the stream. A finished login stays as it is.
pub open spec fn next_state(state: Handshake, incoming_id: Option<i32>) -> Handshake {
    match state {
        Handshake::AwaitingFirstResponse => Handshake::AwaitingAuthResponse,
        Handshake::AwaitingAuthResponse => match incoming_id {
            None => Handshake::Failed(ConnectError::ConnectionClosed),
            Some(id) => if id == INVALID_RCON_ID {
                Handshake::Failed(ConnectError::InvalidPassword)
            } else {
                Handshake::Authenticated
            },
        },
        _ => state,
    }
}

impl Handshake {
    /// The auth request to send first; the password must hold no NUL byte.
    pub fn auth_packet(rcon_password: &[u8]) -> (p: Packet)
        requires
            no_nul(rcon_password@),
        ensures
            p@ == auth_request(rcon_password@),
            p.id == 0,
            p.net_type == PacketType::SERVERDATA_AUTH,
            p.body@ == rcon_password@,
    {
        Packet { id: 0, net_type: PacketType::SERVERDATA_AUTH, body: slice_to_vec(rcon_password) }
    }

    /// The state right after the auth request is sent.
    pub fn new() -> (h: Handshake)
        ensures
            h == Handshake::AwaitingFirstResponse,
    {
        Handshake::AwaitingFirstResponse
    }

    /// Takes one more item of the incoming stream into account: a packet,
    /// or `None` at the end of the stream.
    pub fn step(self, incoming: Option<&Packet>) -> (next: Handshake)
        ensures
            next == next_state(
                self,
                match incoming {
                    Some(p) => Some(p.id),
                    None => None,
                },
            ),
    {
        match self {
            Handshake::AwaitingFirstResponse => Handshake::AwaitingAuthResponse,
            Handshake::AwaitingAuthResponse => match incoming {
                None => Handshake::Failed(ConnectError::ConnectionClosed),
                Some(p) => if p.id == INVALID_RCON_ID {
                    Handshake::Failed(ConnectError::InvalidPassword)
                } else {
                    Handshake::Authenticated
                },
            },
            _ => self,
        }
    }
}

/// The login ends after exactly two items: it succeeds exactly when the
/// second item is a packet whose id is not -1, fails with `ConnectionClosed`
/// when the stream ends there, and with `InvalidPassword` on id -1; what the
/// first item was does not matter.
pub proof fn lemma_handshake_outcome(first: Option<i32>, second: Option<i32>)
    ensures
        ({
            let after = next_state(next_state(Handshake::AwaitingFirstResponse, first), second);
            &&& after == Handshake::Authenticated <==> (second matches Some(id) && id != -1)
            &&& after == Handshake::Failed(ConnectError::ConnectionClosed) <==> second is None
            &&& after == Handshake::Failed(ConnectError::InvalidPassword) <==> second == Some(
                -1i32,
            )
        }),
{
}

/// A finished login stays finished, whatever else arrives.
pub proof fn lemma_finished_is_final(state: Handshake, incoming_id: Option<i32>)
    requires
        state is Authenticated || state is Failed,
    ensures
        next_state(state, incoming_id) == state,
{
}

} // verus!
