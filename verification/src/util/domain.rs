//! Host names as the resolver wants them.

use vstd::prelude::*;
use vstd::string::*;

verus! {

/// The text to hand to the resolver for `domain`: the host name with the
/// port of plain web traffic.
pub fn http_to_ips(domain: &str) -> (target: String)
    ensures
        target@ == domain@ + ":80"@,
{
    let mut target = domain.to_owned();
    target.append(":80");
    target
}

} // verus!
