//! The one setting of the service: the address to listen on.

use vstd::prelude::*;
use vstd::string::StringExecFns;

verus! {

/// The address used where none is configured: every interface, port 8080.
pub open spec fn default_bind_addr() -> Seq<char> {
    "0.0.0.0:8080"@
}

/// The text that announces an address, before the address itself.
pub open spec fn listening_prefix() -> Seq<char> {
    "listening on http://"@
}

/// The address text to listen on: the configured one where there is one,
/// unchanged, and the default otherwise. Whether the text is an address is
/// for the caller to find out when it binds.
pub fn bind_address(configured: Option<String>) -> (addr: String)
    ensures
        addr@ == match configured {
            Some(text) => text@,
            None => default_bind_addr(),
        },
{
    match configured {
        Some(text) => text,
        None => String::from_str("0.0.0.0:8080"),
    }
}

/// The line that announces the address the service listens on.
pub fn listening_line(addr: &str) -> (line: String)
    ensures
        line@ == listening_prefix() + addr@,
{
    String::from_str("listening on http://").concat(addr)
}

} // verus!
