//! Path resolver: maps a request target plus the server configuration to a
//! filesystem path. The root target `/` resolves to the index file inside the
//! document root; every other target is appended to the document root
//! verbatim, reusing its own leading `/` as the separator. No normalization,
//! percent-decoding, or traversal check is performed.

use vstd::prelude::*;
use vstd::string::*;
use crate::bytes::append_bytes;

verus! {

/// The configuration every connection handler shares, fixed at startup.
/// Handlers only ever read it, so sharing needs no synchronization.
pub struct ServerConfig {
    /// File served when the request target is exactly `/`.
    pub index_name: Vec<u8>,
    /// Base directory against which targets are resolved.
    pub document_root: Vec<u8>,
    /// TCP port the listener binds to.
    pub port: u16,
}

/// The index file used when none is configured.
pub open spec fn default_index_name() -> Seq<u8> {
    "index.html".spec_bytes()
}

/// The document root used when none is configured.
pub open spec fn default_document_root() -> Seq<u8> {
    ".".spec_bytes()
}

impl ServerConfig {
    /// Builds the configuration, filling in the default index file and
    /// document root where none was given.
    pub fn new(index_name: Option<Vec<u8>>, document_root: Option<Vec<u8>>, port: u16) -> (c:
        ServerConfig)
        ensures
            c.index_name@ == match index_name {
                Some(v) => v@,
                None => default_index_name(),
            },
            c.document_root@ == match document_root {
                Some(v) => v@,
                None => default_document_root(),
            },
            c.port == port,
    {
        let index_name = match index_name {
            Some(v) => v,
            None => "index.html".as_bytes_vec(),
        };
        let document_root = match document_root {
            Some(v) => v,
            None => ".".as_bytes_vec(),
        };
        ServerConfig { index_name, document_root, port }
    }
}

/// The root target: the single byte `/`.
pub open spec fn root_target() -> Seq<u8> {
    seq![47u8]
}

/// The resolved filesystem path for a target: `{root}/{index}` for the root
/// target, `{root}{target}` (no inserted separator) for any other.
pub open spec fn resolved_path_spec(root: Seq<u8>, index: Seq<u8>, target: Seq<u8>) -> Seq<u8> {
    if target == root_target() {
        root + seq![47u8] + index
    } else {
        root + target
    }
}

/// Resolves a request target against the configuration.
pub fn resolve_path(config: &ServerConfig, target: &Vec<u8>) -> (r: Vec<u8>)
    ensures
        r@ == resolved_path_spec(config.document_root@, config.index_name@, target@),
{
    let mut r: Vec<u8> = Vec::new();
    append_bytes(&mut r, &config.document_root);
    if target.len() == 1 && target[0] == 47u8 {
        proof {
            assert(target@ =~= root_target());
        }
        r.push(47u8);
        append_bytes(&mut r, &config.index_name);
        assert(r@ =~= config.document_root@ + seq![47u8] + config.index_name@);
    } else {
        proof {
            if target@ == root_target() {
                assert(target@.len() == 1 && target@[0] == 47u8);
            }
        }
        append_bytes(&mut r, target);
    }
    r
}

/// The root target resolves to the index file under the document root, with
/// an inserted `/` separator.
pub proof fn lemma_resolve_root(root: Seq<u8>, index: Seq<u8>)
    ensures
        resolved_path_spec(root, index, root_target()) == root + seq![47u8] + index,
{
}

/// Any target other than `/` is appended to the document root directly, with
/// no inserted separator.
pub proof fn lemma_resolve_non_root(root: Seq<u8>, index: Seq<u8>, target: Seq<u8>)
    requires
        target != root_target(),
    ensures
        resolved_path_spec(root, index, target) == root + target,
{
}

} // verus!
