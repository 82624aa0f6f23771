//! Authentication methods and what each one asks of a request.
use vstd::prelude::*;
use crate::secret::Secret;

verus! {

/// How requests are authenticated. Exactly one method is active at a time.
pub enum Authentication {
    /// A basic-auth header is attached when the request is built.
    Basic { username: String, password: Secret },
    /// A bearer header is attached when the request is built.
    Bearer { token: Secret },
    /// Nothing is attached when the request is built; sending performs a
    /// digest challenge-response exchange with these credentials.
    Digest { username: String, password: Secret },
    /// Nothing is attached and the request is sent as it is.
    Anonymous,
}

/// The mathematical value of an [`Authentication`].
pub enum AuthView {
    Basic { username: Seq<char>, password: Seq<char> },
    Bearer { token: Seq<char> },
    Digest { username: Seq<char>, password: Seq<char> },
    Anonymous,
}

impl View for Authentication {
    type V = AuthView;

    open spec fn view(&self) -> AuthView {
        match self {
            Authentication::Basic { username, password } => AuthView::Basic {
                username: username@,
                password: password@,
            },
            Authentication::Bearer { token } => AuthView::Bearer { token: token@ },
            Authentication::Digest { username, password } => AuthView::Digest {
                username: username@,
                password: password@,
            },
            Authentication::Anonymous => AuthView::Anonymous,
        }
    }
}

/// The credentials for a challenge-response exchange at send time, if the
/// method asks for one.
pub open spec fn challenge_credentials(a: AuthView) -> Option<(Seq<char>, Seq<char>)> {
    match a {
        AuthView::Digest { username, password } => Some((username, password)),
        _ => None,
    }
}

/// Whether a request with this method can be sent over an upgraded
/// connection: not with digest, whose exchange is not available there.
pub open spec fn upgrade_allowed(a: AuthView) -> bool {
    !(a is Digest)
}

/// How a built request must be sent.
pub enum SendMode {
    /// A single request/response exchange.
    Direct,
    /// A digest challenge-response exchange with these credentials.
    Digest { username: String, password: Secret },
}

/// The credentials that a send mode hands to the challenge-response exchange.
pub open spec fn send_mode_credentials(m: SendMode) -> Option<(Seq<char>, Seq<char>)> {
    match m {
        SendMode::Direct => None,
        SendMode::Digest { username, password } => Some((username@, password@)),
    }
}

/// Why an upgraded request cannot be sent.
#[derive(PartialEq, Eq, Structural, Clone, Copy, Debug)]
pub enum UpgradeError {
    /// The digest exchange is not available on an upgraded connection.
    DigestUnsupported,
}

impl UpgradeError {
    /// The message that reports this error.
    pub fn message(&self) -> (r: &'static str)
        ensures
            r@ == "unimplemented"@,
    {
        "unimplemented"
    }
}

impl Clone for Authentication {
    fn clone(&self) -> (r: Authentication)
        ensures
            r@ == self@,
    {
        match self {
            Authentication::Basic { username, password } => Authentication::Basic {
                username: username.clone(),
                password: password.clone(),
            },
            Authentication::Bearer { token } => Authentication::Bearer { token: token.clone() },
            Authentication::Digest { username, password } => Authentication::Digest {
                username: username.clone(),
                password: password.clone(),
            },
            Authentication::Anonymous => Authentication::Anonymous,
        }
    }
}

impl Authentication {
    /// How a request built with this method must be sent.
    pub fn send_mode(self) -> (r: SendMode)
        ensures
            send_mode_credentials(r) == challenge_credentials(self@),
    {
        match self {
            Authentication::Digest { username, password } => SendMode::Digest { username, password },
            Authentication::Basic { .. } => SendMode::Direct,
            Authentication::Bearer { .. } => SendMode::Direct,
            Authentication::Anonymous => SendMode::Direct,
        }
    }

    /// Whether a request with this method can be sent over an upgraded
    /// connection.
    pub fn check_upgrade(&self) -> (r: Result<(), UpgradeError>)
        ensures
            r is Ok <==> upgrade_allowed(self@),
    {
        match self {
            Authentication::Digest { .. } => Err(UpgradeError::DigestUnsupported),
            Authentication::Basic { .. } => Ok(()),
            Authentication::Bearer { .. } => Ok(()),
            Authentication::Anonymous => Ok(()),
        }
    }
}

/// Sending a request with a digest method hands exactly its username and
/// password to the challenge-response exchange, and an upgraded request with
/// it cannot be sent; no other method asks for that exchange.
pub proof fn lemma_digest_defers_to_challenge(username: Seq<char>, password: Seq<char>)
    ensures
        challenge_credentials(AuthView::Digest { username, password }) == Some((username, password)),
        !upgrade_allowed(AuthView::Digest { username, password }),
        forall|a: AuthView| !(a is Digest) ==> #[trigger] challenge_credentials(a) is None && upgrade_allowed(a),
{
}

} // verus!
