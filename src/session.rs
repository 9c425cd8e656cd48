//! The parameters of the subscription to the coordinator.

use vstd::prelude::*;

verus! {

/// The channel that carries this agent's event traffic.
pub const NAMESPACE: &'static str = "/ws/seeder";

/// What the connection URL is built from. Made once at start-up.
#[derive(Debug, Clone)]
pub struct ConnectionConfig {
    pub root: String,
    pub hostname: String,
    pub player_name: String,
    pub version: String,
    pub token: String,
    pub has_bf4: bool,
    pub has_bf1: bool,
}

/// A capability flag as it stands in the URL.
pub open spec fn flag_text(b: bool) -> Seq<char> {
    if b {
        "true"@
    } else {
        "false"@
    }
}

/// The connection URL: the root endpoint with the identity, version, token
/// and capability flags as query parameters.
pub open spec fn connection_url(c: ConnectionConfig) -> Seq<char> {
    c.root@ + "?hostname="@ + c.hostname@ + "&playerName="@ + c.player_name@ + "&version="@
        + c.version@ + "&token="@ + c.token@ + "&hasBF4="@ + flag_text(c.has_bf4) + "&hasBF1="@
        + flag_text(c.has_bf1)
}

fn flag(b: bool) -> (r: &'static str)
    ensures
        r@ == flag_text(b),
{
    if b {
        "true"
    } else {
        "false"
    }
}

impl ConnectionConfig {
    /// The configuration of this agent: no player name, both capability flags set.
    pub fn new(root: String, hostname: String, version: String, token: String) -> (r: Self)
        ensures
            r.root == root,
            r.hostname == hostname,
            r.version == version,
            r.token == token,
            r.player_name@ == Seq::<char>::empty(),
            r.has_bf4,
            r.has_bf1,
    {
        ConnectionConfig {
            root,
            hostname,
            player_name: String::new(),
            version,
            token,
            has_bf4: true,
            has_bf1: true,
        }
    }

    /// The URL to connect to.
    pub fn url(&self) -> (r: String)
        ensures
            r@ == connection_url(*self),
    {
        let mut r = self.root.clone();
        r.append("?hostname=");
        r.append(self.hostname.as_str());
        r.append("&playerName=");
        r.append(self.player_name.as_str());
        r.append("&version=");
        r.append(self.version.as_str());
        r.append("&token=");
        r.append(self.token.as_str());
        r.append("&hasBF4=");
        r.append(flag(self.has_bf4));
        r.append("&hasBF1=");
        r.append(flag(self.has_bf1));
        r
    }
}

} // verus!
