//! DNS servers of the tunnel interface.

use vstd::prelude::*;
use crate::error::Result;

verus! {

/// Removes the DNS servers configured for the tunnel. Nothing to do: the
/// operating system drops them with the interface when the process exits.
pub fn delete_dns_servers() -> (r: Result<()>)
    ensures
        r is Ok,
{
    Ok(())
}

} // verus!
