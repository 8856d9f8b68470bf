//! Parameters of an authenticated session and the order of authentication
//! methods tried.

use crate::text::{decimal, push_decimal};
use vstd::prelude::*;

verus! {

/// What every stream needs to open its own session; shared read-only.
#[derive(Clone, Debug)]
pub struct SessionConfig {
    pub host: String,
    pub port: u16,
    pub user: String,
    pub key_path: Option<String>,
    pub retries: u32,
}

/// One way of authenticating, tried in the order `auth_chain` gives.
#[derive(Clone, Debug)]
pub enum AuthStep {
    /// The key file the user named; a failure is reported and the chain goes on.
    ExplicitKey(String),
    /// A default key under the home directory, tried only if the file exists.
    DefaultKey(String),
    /// The running SSH agent.
    Agent,
}

/// `rel` under `base`, as a relative path joins a directory path.
pub open spec fn join_path(base: Seq<char>, rel: Seq<char>) -> Seq<char> {
    if base.len() == 0 || base.last() == '/' {
        base + rel
    } else {
        base + seq!['/'] + rel
    }
}

/// The default key files, relative to the home directory, in the order tried.
pub open spec fn default_key(j: int) -> Seq<char> {
    if j == 0 {
        ".ssh/id_ed25519"@
    } else if j == 1 {
        ".ssh/id_rsa"@
    } else {
        ".ssh/id_ecdsa"@
    }
}

/// `host:port`, the address to resolve for `host` and `port`.
pub open spec fn address_text(host: Seq<char>, port: nat) -> Seq<char> {
    host + seq![':'] + decimal(port)
}

pub(crate) fn join(base: &str, rel: &str) -> (r: String)
    ensures
        r@ == join_path(base@, rel@),
{
    let mut s = String::from_str(base);
    let n = base.unicode_len();
    if n > 0 && base.get_char(n - 1) != '/' {
        s.append("/");
        proof {
            reveal_strlit("/");
        }
    }
    s.append(rel);
    assert(s@ =~= join_path(base@, rel@));
    s
}

impl SessionConfig {
    /// The address to connect to: `host:port`.
    pub fn address(&self) -> (r: String)
        ensures
            r@ == address_text(self.host@, self.port as nat),
    {
        let mut s = self.host.clone();
        s.append(":");
        proof {
            reveal_strlit(":");
        }
        push_decimal(&mut s, self.port as u128);
        assert(s@ =~= address_text(self.host@, self.port as nat));
        s
    }
}

/// The authentication methods to try, in order, until one succeeds: the key
/// the user named if any, then the default keys under `home` if it is known,
/// then the agent.
pub fn auth_chain(cfg: &SessionConfig, home: Option<&str>) -> (r: Vec<AuthStep>)
    ensures
        ({
            let e: int = if cfg.key_path is Some {
                1
            } else {
                0
            };
            let d: int = if home is Some {
                3
            } else {
                0
            };
            &&& r@.len() == e + d + 1
            &&& cfg.key_path is Some ==> r@[0] is ExplicitKey && r@[0]->ExplicitKey_0@
                == cfg.key_path->Some_0@
            &&& forall|j: int|
                0 <= j < d ==> #[trigger] r@[e + j] is DefaultKey && r@[e + j]->DefaultKey_0@
                    == join_path(home->Some_0@, default_key(j))
            &&& r@[e + d] is Agent
        }),
{
    let mut r: Vec<AuthStep> = Vec::new();
    match &cfg.key_path {
        Some(k) => r.push(AuthStep::ExplicitKey(k.clone())),
        None => {},
    }
    match home {
        Some(h) => {
            r.push(AuthStep::DefaultKey(join(h, ".ssh/id_ed25519")));
            r.push(AuthStep::DefaultKey(join(h, ".ssh/id_rsa")));
            r.push(AuthStep::DefaultKey(join(h, ".ssh/id_ecdsa")));
        },
        None => {},
    }
    r.push(AuthStep::Agent);
    r
}

} // verus!
