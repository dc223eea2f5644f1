//! Data carried between the chat service's components: accounts, channels,
//! recorded messages, request parameters and credential claims.

use vstd::prelude::*;

verus! {

/// A stored account row: identity plus the PHC hash of its password.
#[derive(Clone, Debug)]
pub struct User {
    pub id: i64,
    pub username: String,
    pub password_hash: String,
}

/// The publicly listable part of an account.
#[derive(Clone, Debug, PartialEq)]
pub struct UserPublic {
    pub username: String,
}

/// A request to create an account.
#[derive(Clone, Debug)]
pub struct RegisterRequest {
    pub username: String,
    pub password: String,
}

/// A request to open a session with a username and password.
#[derive(Clone, Debug)]
pub struct LoginRequest {
    pub username: String,
    pub password: String,
}

/// A successful login: the issued credential and the identity it binds.
#[derive(Clone, Debug)]
pub struct LoginResponse {
    pub token: String,
    pub username: String,
}

/// The claim shape carried by a credential: the subject identity and the
/// expiry instant in epoch seconds.
#[derive(Clone, Debug)]
pub struct Claims {
    pub sub: String,
    pub exp: usize,
}

/// An authenticated identity, resolved once per connection or request.
#[derive(Clone, Debug, PartialEq)]
pub struct AuthUser {
    pub username: String,
}

/// A shared channel.
#[derive(Clone, Debug, PartialEq)]
pub struct Channel {
    pub id: i64,
    pub name: String,
}

/// A recorded channel post.
#[derive(Clone, Debug, PartialEq)]
pub struct Message {
    pub id: i64,
    pub channel_id: Option<i64>,
    pub username: String,
    pub content: String,
}

/// A client's channel-post intent: the channel and the text.
#[derive(Clone, Debug, PartialEq)]
pub struct CreateMessage {
    pub channel_id: i64,
    pub content: String,
}

/// A recorded direct message.
#[derive(Clone, Debug, PartialEq)]
pub struct PrivateMessage {
    pub id: i64,
    pub sender: String,
    pub receiver: String,
    pub content: String,
}

/// A client's direct-message intent: the addressee and the text.
#[derive(Clone, Debug, PartialEq)]
pub struct CreateDM {
    pub receiver: String,
    pub content: String,
}

/// Query parameters of the channel-history endpoint.
#[derive(Clone, Debug)]
pub struct HistoryParams {
    pub channel_id: i64,
}

/// Query parameters of the direct-message-history endpoint.
#[derive(Clone, Debug)]
pub struct DmHistoryParams {
    pub with_user: String,
}

/// Query parameters of the connection-upgrade request: the credential
/// travels as a query parameter because upgrade handshakes cannot carry
/// custom headers from every client.
#[derive(Clone, Debug)]
pub struct WsParams {
    pub token: String,
}

impl PrivateMessage {
    /// Whether this message belongs to the conversation between `a` and
    /// `b`: either party may be the sender or the receiver. This is the
    /// membership rule of the direct-message history view.
    pub fn involves(&self, a: &String, b: &String) -> (r: bool)
        ensures
            r == ((self.sender@ == a@ && self.receiver@ == b@) || (self.sender@ == b@
                && self.receiver@ == a@)),
    {
        (self.sender == *a && self.receiver == *b) || (self.sender == *b && self.receiver == *a)
    }
}

} // verus!
