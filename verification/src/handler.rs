//! Connection handler steps. A handler runs strictly linearly: frame the
//! header block, plan the request (parse the target and resolve it against
//! the configuration), read the file at the planned path, build the response.
//! This module holds the planning step; framing and response synthesis live
//! in their own modules, and the socket and file I/O between the steps live
//! outside the crate. Exactly one response is produced per header block.

use vstd::prelude::*;
use crate::request::{
    parse_request_target, is_target_range, is_first_line_len, line_has_space,
};
use crate::resolve::{ServerConfig, resolve_path, resolved_path_spec};
use crate::response::{bad_request_response, bad_request_bytes};

verus! {

/// What to do with a framed header block: serve the file at a resolved path,
/// or send an immediate error response.
pub enum RequestPlan {
    /// The target parsed; read the file at this resolved path.
    Serve(Vec<u8>),
    /// The first line had no target; send these response bytes as they are.
    Reject(Vec<u8>),
}

/// Plans a framed request: extracts the target from the header block and
/// resolves it against the configuration. A header block whose first line has
/// no space yields the fixed 400 response instead — a malformed request is
/// answered, never a panic.
pub fn plan_request(config: &ServerConfig, header: &Vec<u8>) -> (r: RequestPlan)
    ensures
        match r {
            RequestPlan::Serve(path) => exists|e: int, a: int, b: int|
                is_target_range(header@, e, a, b) && path@ == resolved_path_spec(
                    config.document_root@,
                    config.index_name@,
                    header@.subrange(a, b),
                ),
            RequestPlan::Reject(resp) => {
                &&& resp@ == bad_request_bytes()
                &&& exists|e: int| is_first_line_len(header@, e) && !line_has_space(header@, e)
            },
        },
{
    match parse_request_target(header) {
        Ok(target) => {
            let path = resolve_path(config, &target);
            proof {
                let (e, a, b) = choose|e: int, a: int, b: int|
                    is_target_range(header@, e, a, b) && target@ == header@.subrange(a, b);
                assert(is_target_range(header@, e, a, b) && path@ == resolved_path_spec(
                    config.document_root@,
                    config.index_name@,
                    header@.subrange(a, b),
                ));
            }
            RequestPlan::Serve(path)
        },
        Err(_) => RequestPlan::Reject(bad_request_response()),
    }
}

} // verus!
