use vstd::prelude::*;
use vstd::string::StrSliceExecFns;
use vstd::utf8::encode_utf8;

use crate::codec::{
    encode_packet, spec_frame, PACKET_AUTH_OK, PACKET_DATA, PACKET_HANDSHAKE, PACKET_MSG,
    PACKET_QUERY,
};
use crate::error::MaazDBError;

verus! {

/// The driver-identity token sent during the handshake for server-side
/// compatibility checks.
pub open spec fn spec_driver_sig() -> Seq<char> {
    "maazdb-rust-driver-v1"@
}

fn driver_sig() -> (r: &'static str)
    ensures
        r@ == spec_driver_sig(),
{
    "maazdb-rust-driver-v1"
}

/// The handshake payload: username, password and driver identity as
/// UTF-8 bytes, NUL-separated, with no escaping of embedded NULs.
pub open spec fn spec_handshake_payload(user: Seq<char>, pass: Seq<char>) -> Seq<u8> {
    encode_utf8(user) + seq![0u8] + encode_utf8(pass) + seq![0u8] + encode_utf8(spec_driver_sig())
}

fn handshake_payload(user: &str, pass: &str) -> (r: Vec<u8>)
    ensures
        r@ == spec_handshake_payload(user@, pass@),
{
    let mut p = user.as_bytes_vec();
    p.push(0);
    let mut pass_bytes = pass.as_bytes_vec();
    p.append(&mut pass_bytes);
    p.push(0);
    let mut sig_bytes = driver_sig().as_bytes_vec();
    p.append(&mut sig_bytes);
    proof {
        assert(p@ =~= spec_handshake_payload(user@, pass@));
    }
    p
}

/// The authenticated session handle. It is created only by a successful
/// handshake and issues one query exchange at a time; `close` marks it
/// unusable and nothing marks it usable again.
pub struct MaazDB {
    pub connected: bool,
}

impl MaazDB {
    /// Builds the single HANDSHAKE packet that opens a session: its
    /// payload carries the credentials and the driver identity.
    pub fn handshake_request(user: &str, pass: &str) -> (r: Result<Vec<u8>, MaazDBError>)
        ensures
            r matches Ok(v) ==> {
                &&& spec_handshake_payload(user@, pass@).len() <= u32::MAX
                &&& v@ == spec_frame(PACKET_HANDSHAKE, spec_handshake_payload(user@, pass@))
            },
            r matches Err(e) ==> {
                &&& spec_handshake_payload(user@, pass@).len() > u32::MAX
                &&& e matches MaazDBError::IoError(m) && m@ == "Packet too large"@
            },
    {
        let payload = handshake_payload(user, pass);
        if payload.len() > u32::MAX as usize {
            return Err(MaazDBError::IoError("Packet too large".to_owned()));
        }
        Ok(encode_packet(PACKET_HANDSHAKE, &payload))
    }

    /// Classifies the server's reply to the handshake: authentication
    /// success yields a connected session; any other type is an
    /// authentication failure carrying the reply text as explanation.
    pub fn handshake_response(ptype: u8, msg: String) -> (r: Result<MaazDB, MaazDBError>)
        ensures
            ptype == PACKET_AUTH_OK ==> (r matches Ok(s) && s.connected),
            ptype != PACKET_AUTH_OK ==> (r matches Err(e) && e matches MaazDBError::AuthError(m)
                && m == msg),
    {
        if ptype == PACKET_AUTH_OK {
            Ok(MaazDB { connected: true })
        } else {
            Err(MaazDBError::AuthError(msg))
        }
    }

    /// Builds the QUERY packet for one command, or refuses without
    /// touching the transport when the session is no longer connected.
    /// The command text travels as an opaque UTF-8 payload.
    pub fn begin_query(&self, sql: &str) -> (r: Result<Vec<u8>, MaazDBError>)
        ensures
            !self.connected ==> (r matches Err(e) && e matches MaazDBError::ProtocolError(m)
                && m@ == "Not connected"@),
            self.connected && encode_utf8(sql@).len() <= u32::MAX ==> (r matches Ok(v) && v@
                == spec_frame(PACKET_QUERY, encode_utf8(sql@))),
            self.connected && encode_utf8(sql@).len() > u32::MAX ==> (r matches Err(e)
                && e matches MaazDBError::IoError(m) && m@ == "Packet too large"@),
    {
        if !self.connected {
            return Err(MaazDBError::ProtocolError("Not connected".to_owned()));
        }
        let payload = sql.as_bytes_vec();
        if payload.len() > u32::MAX as usize {
            return Err(MaazDBError::IoError("Packet too large".to_owned()));
        }
        Ok(encode_packet(PACKET_QUERY, &payload))
    }

    /// Classifies the server's reply to a query: MSG and DATA succeed and
    /// hand the payload text back verbatim; any other type is a protocol
    /// failure carrying the reply text as the server's explanation.
    pub fn classify_response(ptype: u8, msg: String) -> (r: Result<String, MaazDBError>)
        ensures
            ptype == PACKET_MSG || ptype == PACKET_DATA ==> (r matches Ok(m) && m == msg),
            !(ptype == PACKET_MSG || ptype == PACKET_DATA) ==> (r matches Err(e)
                && e matches MaazDBError::ProtocolError(m) && m == msg),
    {
        if ptype == PACKET_MSG || ptype == PACKET_DATA {
            Ok(msg)
        } else {
            Err(MaazDBError::ProtocolError(msg))
        }
    }

    /// Marks the session unusable. Idempotent: it never fails and leaves
    /// the session disconnected no matter how often it is called or what
    /// state the session was in.
    pub fn close(&mut self)
        ensures
            !final(self).connected,
    {
        self.connected = false;
    }
}

} // verus!
