//! Checking the addresses that a peer advertises.

use crate::net;
use crate::net::IpNet;
use crate::proto::v1::{Advertise, HostAddress};
use crate::text;
use vstd::prelude::*;

verus! {

/// How many bytes a signature has.
pub const SIGNATURE_LEN: usize = 64;

/// Calls `iroh_base::Signature::try_from`: it succeeds exactly on strings of 64 bytes.
#[verifier::external_body]
fn is_signature(bytes: &[u8]) -> (r: bool)
    ensures
        r <==> bytes@.len() == SIGNATURE_LEN,
{
    iroh_base::Signature::try_from(bytes).is_ok()
}

/// Why an address was not accepted.
#[derive(Debug)]
pub enum AddressErrorCause {
    /// The network is malformed.
    Network,
    /// The signature is malformed.
    Signature,
    /// The signature is not one of the network by the peer, for the reasons given, each one caused by
    /// the next.
    Verification(Vec<String>),
}

impl AddressErrorCause {
    /// The texts that tell a cause: its own, and that of what caused it in turn.
    pub open spec fn causes(self) -> Seq<Seq<char>> {
        match self {
            AddressErrorCause::Network => seq!["invalid IP address syntax"@],
            AddressErrorCause::Signature => seq![
                "Invalid cryptographic signature"@,
                "Could not parse ed25519 signature"@,
            ],
            AddressErrorCause::Verification(reasons) => text::texts(reasons@),
        }
    }

    fn cause_texts(&self) -> (r: Vec<String>)
        ensures
            text::texts(r@) == self.causes(),
    {
        let mut causes: Vec<String> = Vec::new();
        match self {
            AddressErrorCause::Network => causes.push("invalid IP address syntax".to_owned()),
            AddressErrorCause::Signature => {
                causes.push("Invalid cryptographic signature".to_owned());
                causes.push("Could not parse ed25519 signature".to_owned());
            },
            AddressErrorCause::Verification(reasons) => {
                causes = reasons.clone();
            },
        }
        assert(text::texts(causes@) == self.causes());
        causes
    }
}

/// Tells that an address was not accepted, and why.
#[derive(Debug)]
pub struct AddressError {
    /// The network as it was advertised.
    pub network: String,
    pub cause: AddressErrorCause,
}

/// The message for an address that was not accepted.
pub open spec fn address_error_text(network: Seq<char>, causes: Seq<Seq<char>>) -> Seq<char> {
    text::caused_by("when validating network '"@ + network + "'"@, causes)
}

impl AddressError {
    /// Gives the message of this error, with its causes.
    pub fn message(&self) -> (r: String)
        ensures
            r@ == address_error_text(self.network@, self.cause.causes()),
            r@ == text::caused_by(
                "when validating network '"@ + self.network@ + "'"@,
                self.cause.causes(),
            ),
    {
        let mut message = "when validating network '".to_owned();
        message.append(self.network.as_str());
        message.append("'");
        text::with_causes(message.as_str(), self.cause.cause_texts().as_slice())
    }
}

/// What is known of an advertised address before its signature is verified.
pub open spec fn parsed(host: HostAddress) -> Result<IpNet, AddressErrorCause> {
    match net::net_of_text(host.peer_network@) {
        None => Err(AddressErrorCause::Network),
        Some(network) => if host.peer_network_signature@.len() == SIGNATURE_LEN {
            Ok(network)
        } else {
            Err(AddressErrorCause::Signature)
        },
    }
}

/// Parses an advertised address. If it succeeds, the signature can be verified.
pub fn parse_address(host: &HostAddress) -> (r: Result<IpNet, AddressErrorCause>)
    ensures
        r == parsed(*host),
        r is Ok ==> r->Ok_0.wf(),
        r is Ok <==> net::net_of_text(host.peer_network@) is Some
            && host.peer_network_signature@.len() == 64,
        r is Ok ==> net::net_of_text(host.peer_network@) == Some(r->Ok_0),
        r is Err ==> (r->Err_0 is Network <==> net::net_of_text(host.peer_network@) is None),
        r is Err ==> (r->Err_0 is Signature <==> net::net_of_text(host.peer_network@) is Some),
{
    match IpNet::parse(host.peer_network.as_str()) {
        None => Err(AddressErrorCause::Network),
        Some(network) => {
            if is_signature(host.peer_network_signature.as_slice()) {
                Ok(network)
            } else {
                Err(AddressErrorCause::Signature)
            }
        },
    }
}

/// What becomes of an advertised address, given how verifying its signature went: the network, or
/// the texts of the causes for which it was not accepted. The verification only counts for an address
/// that can be parsed.
pub open spec fn validated(host: HostAddress, verified: Result<(), Vec<String>>) -> Result<
    IpNet,
    Seq<Seq<char>>,
> {
    match parsed(host) {
        Err(cause) => Err(cause.causes()),
        Ok(network) => match verified {
            Ok(_) => Ok(network),
            Err(reasons) => Err(text::texts(reasons@)),
        },
    }
}

/// Validates an advertised address, given how verifying its signature went.
pub fn validate_address(host: &HostAddress, verified: &Result<(), Vec<String>>) -> (r: Result<
    IpNet,
    AddressError,
>)
    ensures
        match validated(*host, *verified) {
            Ok(network) => r == Ok::<IpNet, AddressError>(network) && network.wf(),
            Err(causes) => r is Err && r->Err_0.network@ == host.peer_network@
                && r->Err_0.cause.causes() == causes,
        },
        r is Ok <==> net::net_of_text(host.peer_network@) is Some
            && host.peer_network_signature@.len() == 64 && verified is Ok,
        r is Ok ==> net::net_of_text(host.peer_network@) == Some(r->Ok_0),
        r is Err ==> (r->Err_0.cause is Network <==> net::net_of_text(host.peer_network@) is None),
        r is Err ==> (r->Err_0.cause is Verification <==> net::net_of_text(host.peer_network@) is Some
            && host.peer_network_signature@.len() == 64),
        r is Err && r->Err_0.cause is Verification ==> text::texts(
            r->Err_0.cause->Verification_0@,
        ) == text::texts(verified->Err_0@),
{
    match parse_address(host) {
        Err(cause) => Err(AddressError { network: host.peer_network.clone(), cause }),
        Ok(network) => match verified {
            Ok(()) => Ok(network),
            Err(reasons) => {
                let cause = AddressErrorCause::Verification(reasons.clone());
                assert(cause.causes() == text::texts(reasons@));
                Err(AddressError { network: host.peer_network.clone(), cause })
            },
        },
    }
}

/// Whether a network is contained in one of those that are allowed.
pub open spec fn allowed(network: IpNet, allowed_nets: Seq<IpNet>) -> bool {
    exists|i: int| 0 <= i < allowed_nets.len() && (#[trigger] allowed_nets[i]).covers(network)
}

/// Tells whether a network is contained in one of those that are allowed.
pub fn is_subnet_of_any(network: &IpNet, allowed_nets: &[IpNet]) -> (r: bool)
    requires
        network.wf(),
        forall|i: int| 0 <= i < allowed_nets@.len() ==> (#[trigger] allowed_nets@[i]).wf(),
    ensures
        r <==> allowed(*network, allowed_nets@),
        r <==> exists|i: int|
            0 <= i < allowed_nets@.len() && (#[trigger] allowed_nets@[i]).covers(*network),
{
    let mut i: usize = 0;
    while i < allowed_nets.len()
        invariant
            i <= allowed_nets.len(),
            network.wf(),
            forall|j: int| 0 <= j < allowed_nets@.len() ==> (#[trigger] allowed_nets@[j]).wf(),
            forall|j: int| 0 <= j < i ==> !(#[trigger] allowed_nets@[j]).covers(*network),
        decreases allowed_nets.len() - i,
    {
        if allowed_nets[i].contains(network) {
            return true;
        }
        i = i + 1;
    }
    false
}

/// The networks that are accepted, in the order in which they are advertised.
pub open spec fn accepted(
    allowed_nets: Seq<IpNet>,
    hosts: Seq<HostAddress>,
    verified: Seq<Result<(), Vec<String>>>,
) -> Seq<IpNet>
    decreases hosts.len(),
{
    if hosts.len() == 0 {
        Seq::empty()
    } else {
        let before = accepted(allowed_nets, hosts.drop_last(), verified.drop_last());
        match validated(hosts.last(), verified.last()) {
            Ok(network) => if allowed(network, allowed_nets) {
                before.push(network)
            } else {
                before
            },
            Err(_) => before,
        }
    }
}

/// The networks that failed validation and the causes, as texts, in the order in which they are
/// advertised.
pub open spec fn refused(hosts: Seq<HostAddress>, verified: Seq<Result<(), Vec<String>>>) -> Seq<
    (Seq<char>, Seq<Seq<char>>),
>
    decreases hosts.len(),
{
    if hosts.len() == 0 {
        Seq::empty()
    } else {
        let before = refused(hosts.drop_last(), verified.drop_last());
        match validated(hosts.last(), verified.last()) {
            Ok(_) => before,
            Err(causes) => before.push((hosts.last().peer_network@, causes)),
        }
    }
}

/// Whether errors tell the given networks and causes.
pub open spec fn tell(errors: Seq<AddressError>, refused: Seq<(Seq<char>, Seq<Seq<char>>)>) -> bool {
    &&& errors.len() == refused.len()
    &&& forall|i: int|
        0 <= i < errors.len() ==> (#[trigger] errors[i]).network@ == refused[i].0
            && errors[i].cause.causes() == refused[i].1
}

/// Gives the networks that pass validation and that are also subnets of (at least one of) the given
/// `allowed_nets`. Gives errors for networks that failed parsing/validation. Networks that passed
/// validation, but are outside `allowed_nets`, are silently skipped.
///
/// `verified` says for each address how verifying its signature went.
pub fn validate_addresses(
    allowed_nets: &[IpNet],
    advertise: &Advertise,
    verified: &[Result<(), Vec<String>>],
) -> (r: (Vec<IpNet>, Vec<AddressError>))
    requires
        forall|i: int| 0 <= i < allowed_nets@.len() ==> (#[trigger] allowed_nets@[i]).wf(),
        verified@.len() == advertise.own_addresses@.len(),
    ensures
        r.0@ == accepted(allowed_nets@, advertise.own_addresses@, verified@),
        tell(r.1@, refused(advertise.own_addresses@, verified@)),
        r.1@.len() == refused(advertise.own_addresses@, verified@).len(),
        forall|i: int|
            0 <= i < r.1@.len() ==> (#[trigger] r.1@[i]).network@ == refused(
                advertise.own_addresses@,
                verified@,
            )[i].0 && r.1@[i].cause.causes() == refused(advertise.own_addresses@, verified@)[i].1,
        forall|i: int| 0 <= i < r.0@.len() ==> (#[trigger] r.0@[i]).wf(),
{
    let mut valid: Vec<IpNet> = Vec::new();
    let mut errors: Vec<AddressError> = Vec::new();
    let hosts = &advertise.own_addresses;
    let mut i: usize = 0;
    while i < hosts.len()
        invariant
            i <= hosts.len(),
            hosts@ == advertise.own_addresses@,
            verified@.len() == hosts@.len(),
            forall|j: int| 0 <= j < allowed_nets@.len() ==> (#[trigger] allowed_nets@[j]).wf(),
            valid@ == accepted(allowed_nets@, hosts@.take(i as int), verified@.take(i as int)),
            tell(errors@, refused(hosts@.take(i as int), verified@.take(i as int))),
            forall|j: int| 0 <= j < valid@.len() ==> (#[trigger] valid@[j]).wf(),
        decreases hosts.len() - i,
    {
        assert(hosts@.take(i + 1).drop_last() == hosts@.take(i as int));
        assert(verified@.take(i + 1).drop_last() == verified@.take(i as int));
        match validate_address(&hosts[i], &verified[i]) {
            Ok(network) => {
                if is_subnet_of_any(&network, allowed_nets) {
                    valid.push(network);
                }
            },
            Err(error) => errors.push(error),
        }
        i = i + 1;
    }
    assert(hosts@.take(i as int) == hosts@);
    assert(verified@.take(i as int) == verified@);
    (valid, errors)
}

/// An address is valid exactly if its network is well-formed, its signature has 64 bytes and was
/// verified; and it is that network. A verification that failed counts for every network.
pub proof fn valid_iff_parsed_and_verified(
    host: HostAddress,
    verified: Result<(), Vec<String>>,
    network: IpNet,
)
    ensures
        validated(host, verified) == Ok::<IpNet, Seq<Seq<char>>>(network) <==> {
            &&& net::net_of_text(host.peer_network@) == Some(network)
            &&& host.peer_network_signature@.len() == 64
            &&& verified is Ok
        },
        verified is Err ==> validated(host, verified) is Err,
{
}

/// What is told of an address that is not valid: that its network is malformed; or else, that its
/// signature is; or else, the reasons for which it was not verified.
pub proof fn the_first_fault_is_told(host: HostAddress, verified: Result<(), Vec<String>>)
    ensures
        net::net_of_text(host.peer_network@) is None ==> validated(host, verified) == Err::<
            IpNet,
            Seq<Seq<char>>,
        >(seq!["invalid IP address syntax"@]),
        net::net_of_text(host.peer_network@) is Some && host.peer_network_signature@.len() != 64
            ==> validated(host, verified) == Err::<IpNet, Seq<Seq<char>>>(
            seq!["Invalid cryptographic signature"@, "Could not parse ed25519 signature"@],
        ),
        net::net_of_text(host.peer_network@) is Some && host.peer_network_signature@.len() == 64
            && verified is Err ==> {
            let told = validated(host, verified)->Err_0;
            &&& validated(host, verified) is Err
            &&& told.len() == verified->Err_0@.len()
            &&& forall|i: int| 0 <= i < told.len() ==> #[trigger] told[i] == verified->Err_0@[i]@
        },
{
}

/// Each address is judged by itself: one more address adds its network to the accepted ones if it is
/// well-formed, signed with 64 bytes, verified, and contained in an allowed network; and it adds one
/// error if it is not well-formed, or not signed, or not verified. Nothing else changes.
pub proof fn each_address_is_judged_by_itself(
    allowed_nets: Seq<IpNet>,
    hosts: Seq<HostAddress>,
    verified: Seq<Result<(), Vec<String>>>,
    host: HostAddress,
    verdict: Result<(), Vec<String>>,
)
    ensures
        ({
            let network = net::net_of_text(host.peer_network@);
            let valid = network is Some && host.peer_network_signature@.len() == 64 && verdict is Ok;
            let inside = exists|j: int|
                0 <= j < allowed_nets.len() && (#[trigger] allowed_nets[j]).covers(network->0);
            let before = accepted(allowed_nets, hosts, verified);
            let after = accepted(allowed_nets, hosts.push(host), verified.push(verdict));
            let errors = refused(hosts, verified);
            let more = refused(hosts.push(host), verified.push(verdict));
            &&& valid && inside ==> after == before.push(network->0)
            &&& !(valid && inside) ==> after == before
            &&& valid ==> more == errors
            &&& !valid ==> more.len() == errors.len() + 1 && more.drop_last() == errors
                && more.last().0 == host.peer_network@
        }),
        accepted(allowed_nets, Seq::empty(), Seq::empty()).len() == 0,
        refused(Seq::empty(), Seq::empty()).len() == 0,
{
    assert(hosts.push(host).drop_last() == hosts);
    assert(verified.push(verdict).drop_last() == verified);
    let errors = refused(hosts, verified);
    match validated(host, verdict) {
        Ok(_) => {},
        Err(causes) => {
            assert(errors.push((host.peer_network@, causes)).drop_last() == errors);
        },
    }
}

/// A network is accepted exactly if it was advertised, with a signature of 64 bytes that was verified,
/// and is contained in an allowed network.
pub proof fn accepted_iff_verified_and_allowed(
    allowed_nets: Seq<IpNet>,
    hosts: Seq<HostAddress>,
    verified: Seq<Result<(), Vec<String>>>,
    network: IpNet,
)
    requires
        hosts.len() == verified.len(),
    ensures
        accepted(allowed_nets, hosts, verified).contains(network) <==> {
            &&& exists|j: int|
                0 <= j < allowed_nets.len() && (#[trigger] allowed_nets[j]).covers(network)
            &&& exists|i: int|
                {
                    &&& 0 <= i < hosts.len()
                    &&& net::net_of_text((#[trigger] hosts[i]).peer_network@) == Some(network)
                    &&& hosts[i].peer_network_signature@.len() == 64
                    &&& verified[i] is Ok
                }
        },
{
    accepted_iff_validated(allowed_nets, hosts, verified, network);
    if exists|i: int|
        0 <= i < hosts.len() && validated(#[trigger] hosts[i], verified[i]) == Ok::<
            IpNet,
            Seq<Seq<char>>,
        >(network) {
        let i = choose|i: int|
            0 <= i < hosts.len() && validated(#[trigger] hosts[i], verified[i]) == Ok::<
                IpNet,
                Seq<Seq<char>>,
            >(network);
        valid_iff_parsed_and_verified(hosts[i], verified[i], network);
    }
    if exists|i: int|
        {
            &&& 0 <= i < hosts.len()
            &&& net::net_of_text((#[trigger] hosts[i]).peer_network@) == Some(network)
            &&& hosts[i].peer_network_signature@.len() == 64
            &&& verified[i] is Ok
        } {
        let i = choose|i: int|
            {
                &&& 0 <= i < hosts.len()
                &&& net::net_of_text((#[trigger] hosts[i]).peer_network@) == Some(network)
                &&& hosts[i].peer_network_signature@.len() == 64
                &&& verified[i] is Ok
            };
        valid_iff_parsed_and_verified(hosts[i], verified[i], network);
    }
}

proof fn accepted_iff_validated(
    allowed_nets: Seq<IpNet>,
    hosts: Seq<HostAddress>,
    verified: Seq<Result<(), Vec<String>>>,
    network: IpNet,
)
    requires
        hosts.len() == verified.len(),
    ensures
        accepted(allowed_nets, hosts, verified).contains(network) <==> allowed(
            network,
            allowed_nets,
        ) && exists|i: int|
            0 <= i < hosts.len() && validated(#[trigger] hosts[i], verified[i]) == Ok::<
                IpNet,
                Seq<Seq<char>>,
            >(network),
    decreases hosts.len(),
{
    if hosts.len() > 0 {
        let n = hosts.len() - 1;
        let (before, last) = (hosts.drop_last(), hosts.last());
        let rest = accepted(allowed_nets, before, verified.drop_last());
        accepted_iff_validated(allowed_nets, before, verified.drop_last(), network);
        assert(forall|i: int| 0 <= i < n ==> before[i] == hosts[i]);
        assert(validated(hosts[n], verified[n]) == validated(last, verified.last()));
        match validated(last, verified.last()) {
            Ok(found) => {
                if allowed(found, allowed_nets) {
                    let all = rest.push(found);
                    assert(all.contains(network) <==> rest.contains(network) || network == found) by {
                        if rest.contains(network) {
                            let j = choose|j: int| 0 <= j < rest.len() && rest[j] == network;
                            assert(all[j] == network);
                        }
                        if network == found {
                            assert(all[rest.len() as int] == network);
                        }
                    }
                }
            },
            Err(_) => {},
        }
        if exists|i: int|
            0 <= i < before.len() && validated(#[trigger] before[i], verified.drop_last()[i])
                == Ok::<IpNet, Seq<Seq<char>>>(network) {
            let i = choose|i: int|
                0 <= i < before.len() && validated(#[trigger] before[i], verified.drop_last()[i])
                    == Ok::<IpNet, Seq<Seq<char>>>(network);
            assert(validated(hosts[i], verified[i]) == Ok::<IpNet, Seq<Seq<char>>>(network));
        }
        if exists|i: int|
            0 <= i < hosts.len() && validated(#[trigger] hosts[i], verified[i]) == Ok::<
                IpNet,
                Seq<Seq<char>>,
            >(network) {
            let i = choose|i: int|
                0 <= i < hosts.len() && validated(#[trigger] hosts[i], verified[i]) == Ok::<
                    IpNet,
                    Seq<Seq<char>>,
                >(network);
            if i < n {
                assert(validated(before[i], verified.drop_last()[i]) == Ok::<IpNet, Seq<Seq<char>>>(
                    network,
                ));
            }
        }
    } else {
        assert(accepted(allowed_nets, hosts, verified).len() == 0);
    }
}

/// All addresses of a network that is allowed belong to one of the allowed networks, and so does the
/// address with which it was advertised.
pub proof fn allowed_networks_hold_every_address(network: IpNet, allowed_nets: Seq<IpNet>)
    requires
        network.wf(),
        forall|i: int| 0 <= i < allowed_nets.len() ==> (#[trigger] allowed_nets[i]).wf(),
        allowed(network, allowed_nets),
    ensures
        exists|i: int|
            0 <= i < allowed_nets.len() && (#[trigger] allowed_nets[i]).has(network.addr) && (forall|
                addr: net::IpAddr,
            |
                network.has(addr) ==> allowed_nets[i].has(addr)),
{
    let i = choose|i: int|
        0 <= i < allowed_nets.len() && (#[trigger] allowed_nets[i]).covers(network);
    net::covers_iff_every_address_belongs(allowed_nets[i], network);
    net::net_has_its_address(network);
    assert(allowed_nets[i].has(network.addr));
}

/// There are no errors exactly if all addresses are valid.
pub proof fn no_errors_iff_all_are_valid(
    hosts: Seq<HostAddress>,
    verified: Seq<Result<(), Vec<String>>>,
)
    requires
        hosts.len() == verified.len(),
    ensures
        refused(hosts, verified).len() == 0 <==> (forall|i: int|
            0 <= i < hosts.len() ==> net::net_of_text((#[trigger] hosts[i]).peer_network@) is Some
                && hosts[i].peer_network_signature@.len() == 64 && verified[i] is Ok),
    decreases hosts.len(),
{
    if hosts.len() > 0 {
        let n = hosts.len() - 1;
        no_errors_iff_all_are_valid(hosts.drop_last(), verified.drop_last());
        assert(forall|i: int| 0 <= i < n ==> hosts.drop_last()[i] == hosts[i]);
        assert(hosts.last() == hosts[n]);
        if refused(hosts, verified).len() == 0 {
            assert forall|i: int| 0 <= i < hosts.len() implies net::net_of_text(
                (#[trigger] hosts[i]).peer_network@,
            ) is Some && hosts[i].peer_network_signature@.len() == 64 && verified[i] is Ok by {
                if i < n {
                    assert(hosts.drop_last()[i] == hosts[i]);
                }
            }
        }
    }
}

/// The accepted networks and the errors together are no more than the advertised addresses.
pub proof fn each_address_counts_once(
    allowed_nets: Seq<IpNet>,
    hosts: Seq<HostAddress>,
    verified: Seq<Result<(), Vec<String>>>,
)
    requires
        hosts.len() == verified.len(),
    ensures
        accepted(allowed_nets, hosts, verified).len() + refused(hosts, verified).len()
            <= hosts.len(),
    decreases hosts.len(),
{
    if hosts.len() > 0 {
        each_address_counts_once(allowed_nets, hosts.drop_last(), verified.drop_last());
    }
}

} // verus!
