//! The local SSH listener of a target.

use crate::failure::{plain, spelled_out, under, Chain, Failure};
use crate::gateway::model::{LocalListenerStatus, LocalSshReady};
use crate::text::{cat4, decimal, decimal_text};
use vstd::prelude::*;

verus! {

/// How a target is configured to be reached locally.
#[derive(Debug, Clone, PartialEq, Eq)]
pub struct LocalSshAddress {
    pub host: String,
    pub port: Option<u16>,
}

/// What stands behind an optional reference.
pub open spec fn address_of(configured: Option<&LocalSshAddress>) -> Option<LocalSshAddress> {
    match configured {
        Some(address) => Some(*address),
        None => None,
    }
}

/// What stands behind an optional reference.
pub open spec fn status_of(active: Option<&LocalListenerStatus>) -> Option<LocalListenerStatus> {
    match active {
        Some(status) => Some(*status),
        None => None,
    }
}

/// Where the listener of a target is bound, or why it has none.
pub open spec fn listening_at(
    configured: Option<LocalSshAddress>,
    active: Option<LocalListenerStatus>,
) -> Result<(Seq<char>, u16), Chain> {
    match configured {
        None => Err(plain("target does not configure local_ssh"@)),
        Some(address) => match active {
            Some(other) => Err(
                plain(
                    "local SSH listener is already active on "@ + other.host@ + ":"@ + decimal(
                        other.port as nat,
                    ),
                ),
            ),
            None => Ok(
                (
                    address.host@,
                    match address.port {
                        Some(port) => port,
                        None => 0u16,
                    },
                ),
            ),
        },
    }
}

/// Where the listener of a target is bound: port 0 lets the system choose. A
/// second listener is refused while one is active.
pub fn listener_address(
    configured: Option<&LocalSshAddress>,
    active: Option<&LocalListenerStatus>,
) -> (r: Result<LocalSshReady, Failure>)
    ensures
        match listening_at(address_of(configured), status_of(active)) {
            Ok((host, port)) => r matches Ok(bind) && bind.host@ == host && bind.port == port,
            Err(chain) => r matches Err(failure) && failure@ == chain,
        },
{
    let address = match configured {
        Some(address) => address,
        None => return Err(Failure::msg("target does not configure local_ssh")),
    };
    if let Some(other) = active {
        let message = cat4(
            "local SSH listener is already active on ",
            other.host.as_str(),
            ":",
            decimal_text(other.port as u64).as_str(),
        );
        return Err(Failure::msg(message.as_str()));
    }
    let port: u16 = match address.port {
        Some(port) => port,
        None => 0,
    };
    Ok(LocalSshReady { host: address.host.clone(), port })
}

/// The failure to bind a listener.
pub fn bind_failure(address: &LocalSshReady, complaint: &str) -> (r: Failure)
    ensures
        r@ == under(
            "bind "@ + address.host@ + ":"@ + decimal(address.port as nat),
            plain(complaint@),
        ),
{
    Failure::msg(complaint).context(
        cat4(
            "bind ",
            address.host.as_str(),
            ":",
            decimal_text(address.port as u64).as_str(),
        ).as_str(),
    )
}

/// A target that configures no local address has no listener, and neither has one
/// that already listens. Any other is bound at its host and its port; without a
/// port the system chooses one.
pub proof fn listeners_are_bound_as_configured(
    configured: Option<LocalSshAddress>,
    active: Option<LocalListenerStatus>,
    address: LocalSshAddress,
    port: u16,
)
    ensures
        listening_at(configured, active) is Ok <==> configured is Some && active is None,
        listening_at(
            Some(LocalSshAddress { host: address.host, port: Some(port) }),
            None,
        ) == Ok::<(Seq<char>, u16), Chain>((address.host@, port)),
        listening_at(Some(LocalSshAddress { host: address.host, port: None }), None) == Ok::<
            (Seq<char>, u16),
            Chain,
        >((address.host@, 0)),
        configured is Some ==> (active matches Some(other) ==> (listening_at(
            configured,
            active,
        ) matches Err(chain) && spelled_out(chain) == "local SSH listener is already active on "@
            + other.host@ + ":"@ + decimal(other.port as nat))),
        configured is None ==> (listening_at(configured, active) matches Err(chain) && spelled_out(
            chain,
        ) == "target does not configure local_ssh"@),
{
}

} // verus!
