//! The daemon's launch parameters and the process-wide slot that holds its
//! RPC address. The slot is read by every RPC-issuing operation and written
//! only at startup or restart; a reader-writer lock keeps concurrent access
//! sound, and its invariant keeps every stored value a well-formed address.

use vstd::prelude::*;
use vstd::rwlock::{RwLock, RwLockPredicate};

use crate::strnum::{dec_of, u64_to_string};

verus! {

/// The loopback RPC address for a listen port.
pub open spec fn url_of(port: nat) -> Seq<char> {
    "ws://127.0.0.1:"@ + dec_of(port) + "/jsonrpc"@
}

/// A value the endpoint slot may hold: still unset, or the loopback address
/// of some port.
pub open spec fn wf_endpoint(s: Seq<char>) -> bool {
    s.len() == 0 || exists|p: nat| p < 65536 && s == url_of(p)
}

/// Renders the loopback RPC address for `port`.
pub fn endpoint_url(port: u16) -> (r: String)
    ensures
        r@ == url_of(port as nat),
{
    let mut r = "ws://127.0.0.1:".to_owned();
    let d = u64_to_string(port as u64);
    r.append(d.as_str());
    r.append("/jsonrpc");
    proof {
        assert(r@ =~= url_of(port as nat));
    }
    r
}

/// The flags the daemon executable is launched with: no external config, RPC
/// on the given port, all origins allowed, quiet output.
pub fn daemon_args(port: u16) -> (r: Vec<String>)
    ensures
        r@.len() == 5,
        r@[0]@ == "--no-conf"@,
        r@[1]@ == "--enable-rpc"@,
        r@[2]@ == "--rpc-listen-port="@ + dec_of(port as nat),
        r@[3]@ == "--rpc-allow-origin-all"@,
        r@[4]@ == "--quiet=true"@,
{
    let mut port_flag = "--rpc-listen-port=".to_owned();
    let d = u64_to_string(port as u64);
    port_flag.append(d.as_str());
    let mut v: Vec<String> = Vec::new();
    v.push("--no-conf".to_owned());
    v.push("--enable-rpc".to_owned());
    v.push(port_flag);
    v.push("--rpc-allow-origin-all".to_owned());
    v.push("--quiet=true".to_owned());
    v
}

/// Lock invariant of the endpoint slot.
pub struct EndpointInv {}

impl RwLockPredicate<String> for EndpointInv {
    open spec fn inv(self, v: String) -> bool {
        wf_endpoint(v@)
    }
}

/// The single shared slot holding the daemon's RPC address. Readers (every
/// RPC call) proceed concurrently; the startup writer excludes them; no
/// interleaving can expose a value that is not a well-formed address.
pub struct DaemonEndpoint {
    slot: RwLock<String, EndpointInv>,
}

impl DaemonEndpoint {
    pub closed spec fn wf(&self) -> bool {
        self.slot.pred() == (EndpointInv {  })
    }

    /// A fresh slot, still unset.
    pub fn new() -> (r: Self)
        ensures
            r.wf(),
    {
        let s = String::new();
        DaemonEndpoint { slot: RwLock::new(s, Ghost(EndpointInv {  })) }
    }

    /// Stores the loopback address for `port`, excluding all readers for the
    /// duration of the update.
    pub fn set_port(&self, port: u16)
        requires
            self.wf(),
    {
        let url = endpoint_url(port);
        proof {
            assert((port as nat) < 65536 && url@ == url_of(port as nat));
        }
        let (_old_val, handle) = self.slot.acquire_write();
        handle.release_write(url);
    }

    /// Reads the current address: the empty string while the slot is unset
    /// (callers turn that into a connectivity error), else a loopback
    /// address. Never a torn or foreign value.
    pub fn read_url(&self) -> (r: String)
        requires
            self.wf(),
        ensures
            wf_endpoint(r@),
    {
        let handle = self.slot.acquire_read();
        let r = handle.borrow().clone();
        handle.release_read();
        r
    }
}

} // verus!
