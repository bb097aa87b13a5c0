//! The parts of the node that a directive can address.

use vstd::prelude::*;

verus! {

/// What a directive applies to: every record (`Global`), one of the node's own
/// subsystems, or one of the third-party libraries whose chatter is kept out
/// of operator-facing logs.
#[derive(Clone, Copy, Debug, PartialEq, Eq, Structural)]
pub enum Scope {
    /// Every record that no other directive claims.
    Global,
    /// The gateway of the consensus layer.
    Gateway,
    /// The consensus layer as a whole.
    Narwhal,
    /// The peer-to-peer router.
    Router,
    /// The transport under the router.
    Tcp,
    /// The networking event loop.
    Mio,
    /// The async utilities.
    TokioUtil,
    /// The HTTP client and server internals.
    Hyper,
    /// The HTTP client.
    Reqwest,
    /// The readiness signalling under the HTTP stack.
    Want,
    /// The HTTP framework.
    Warp,
}

impl Scope {
    /// The module path that records of this scope carry; `Global` has none.
    pub open spec fn path(self) -> Option<Seq<char>> {
        match self {
            Scope::Global => None,
            Scope::Gateway => Some("snarkos_node_narwhal::gateway"@),
            Scope::Narwhal => Some("snarkos_node_narwhal"@),
            Scope::Router => Some("snarkos_node_router"@),
            Scope::Tcp => Some("snarkos_node_tcp"@),
            Scope::Mio => Some("mio"@),
            Scope::TokioUtil => Some("tokio_util"@),
            Scope::Hyper => Some("hyper"@),
            Scope::Reqwest => Some("reqwest"@),
            Scope::Want => Some("want"@),
            Scope::Warp => Some("warp"@),
        }
    }

    /// Whether this scope is one of the libraries that are always silenced.
    pub open spec fn is_noise(self) -> bool {
        self == Scope::Mio || self == Scope::TokioUtil || self == Scope::Hyper
            || self == Scope::Reqwest || self == Scope::Want || self == Scope::Warp
    }

    /// The module path that records of this scope carry; `Global` has none.
    pub fn target(&self) -> (path: Option<&'static str>)
        ensures
            path.is_some() == self.path().is_some(),
            path matches Some(p) ==> self.path() == Some(p@),
    {
        match self {
            Scope::Global => None,
            Scope::Gateway => Some("snarkos_node_narwhal::gateway"),
            Scope::Narwhal => Some("snarkos_node_narwhal"),
            Scope::Router => Some("snarkos_node_router"),
            Scope::Tcp => Some("snarkos_node_tcp"),
            Scope::Mio => Some("mio"),
            Scope::TokioUtil => Some("tokio_util"),
            Scope::Hyper => Some("hyper"),
            Scope::Reqwest => Some("reqwest"),
            Scope::Want => Some("want"),
            Scope::Warp => Some("warp"),
        }
    }

    /// Whether this scope is one of the libraries that are always silenced.
    pub fn is_suppressed(&self) -> (yes: bool)
        ensures
            yes == self.is_noise(),
    {
        match self {
            Scope::Mio | Scope::TokioUtil | Scope::Hyper | Scope::Reqwest | Scope::Want
            | Scope::Warp => true,
            _ => false,
        }
    }
}

} // verus!
