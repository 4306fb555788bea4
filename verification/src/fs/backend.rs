//! Where the contents of a storage medium and of its file system items are
//! kept, and how an item's backend is matched with its storage's backend.
use vstd::prelude::*;

verus! {

/// An item kept on the local file system, at a path relative to its
/// storage's directory.
pub struct NodeLocal {
    pub path: String,
}

/// The backend of a file system item.
pub enum Node {
    Local(NodeLocal),
}

impl Node {
    /// The local backend, if this is one.
    pub fn as_local(&self) -> (r: Option<&NodeLocal>)
        ensures
            match self {
                Node::Local(l) => r == Some(l),
            },
    {
        match self {
            Node::Local(local) => Some(local),
        }
    }
}

/// A storage medium kept on the local file system, under a directory.
pub struct ConfigLocal {
    pub path: String,
}

/// The backend of a storage medium.
pub enum Config {
    Local(ConfigLocal),
}

/// A storage backend and an item backend of the same kind.
pub enum Pair<'a, 'b> {
    Local((&'a ConfigLocal, &'b NodeLocal)),
}

/// The backends of a storage medium and of an item do not match.
pub struct MissMatched;

impl MissMatched {
    /// The text the error displays.
    pub fn message(&self) -> (r: &'static str)
        ensures
            r@ == "provided backends do not match"@,
    {
        "provided backends do not match"
    }
}

impl<'a, 'b> Pair<'a, 'b> {
    /// Pairs a storage backend with an item backend of the same kind.
    pub fn match_up(config: &'a Config, node: &'b Node) -> (r: Result<Self, MissMatched>)
        ensures
            match (config, node) {
                (Config::Local(c), Node::Local(n)) => r matches Ok(Pair::Local(p)) && p.0 == c && p.1 == n,
            },
    {
        match config {
            Config::Local(conf_local) => match node {
                Node::Local(node_local) => Ok(Pair::Local((conf_local, node_local))),
            },
        }
    }
}

} // verus!
