//! Domain events raised by issuing and revoking tokens, and the key under
//! which an encoded token is filed in the repository.

use vstd::prelude::*;
use crate::strutil::concat_str;

verus! {

/// What happened to a session's token.
pub enum DomainEvent {
    TokenIssued { session_id: String },
    TokenRevoked { session_id: String },
}

/// A request to revoke the token of a session.
pub struct RevokeTokenCommand {
    pub session_id: String,
}

/// Revoking a session raises the matching event.
pub fn handle_revoke_token(cmd: RevokeTokenCommand) -> (r: DomainEvent)
    ensures
        r matches DomainEvent::TokenRevoked { session_id } && session_id@ == cmd.session_id@,
{
    DomainEvent::TokenRevoked { session_id: cmd.session_id }
}

/// The repository key an encoded token is filed under.
pub fn repository_key(session_id_hex: &str) -> (r: String)
    ensures
        r@ == "rtatoken:"@ + session_id_hex@,
{
    concat_str("rtatoken:", session_id_hex)
}

} // verus!
