//! A network of several physical bindings with a routing table.
use std::collections::HashMap;
use vstd::prelude::*;
use vstd::std_specs::hash::group_hash_axioms;
use crate::network::error::Error;
use crate::network::types::{Client, Route, SocketAddress};
use crate::{MctpEmuError, MctpEmuResult};

verus! {

broadcast use group_hash_axioms;

/// The first route of `routes` that leads to endpoint `daddr` of network `dnet`.
pub open spec fn first_route(routes: Seq<Route>, dnet: u32, daddr: u8) -> Option<Route>
    decreases routes.len(),
{
    if routes.len() == 0 {
        None
    } else if routes[0].matches(dnet, daddr) {
        Some(routes[0])
    } else {
        first_route(routes.skip(1), dnet, daddr)
    }
}

/// A route that is found matches, and a route is found whenever one matches.
pub proof fn lemma_first_route(routes: Seq<Route>, dnet: u32, daddr: u8)
    ensures
        first_route(routes, dnet, daddr) matches Some(route) ==> route.matches(dnet, daddr)
            && routes.contains(route),
        first_route(routes, dnet, daddr) is None ==> forall|i: int|
            0 <= i < routes.len() ==> !(#[trigger] routes[i]).matches(dnet, daddr),
    decreases routes.len(),
{
    if routes.len() > 0 && !routes[0].matches(dnet, daddr) {
        let rest = routes.skip(1);
        lemma_first_route(rest, dnet, daddr);
        if first_route(rest, dnet, daddr) is Some {
            let route = first_route(rest, dnet, daddr).unwrap();
            let i = choose|i: int| 0 <= i < rest.len() && rest[i] == route;
            assert(routes[i + 1] == route);
        } else {
            assert forall|i: int| 0 <= i < routes.len() implies !(#[trigger] routes[i]).matches(
                dnet,
                daddr,
            ) by {
                if i > 0 {
                    assert(routes[i] == rest[i - 1]);
                }
            }
        }
    } else if routes.len() > 0 {
        assert(routes[0] == routes[0]);
    }
}

/// The state of the network: the sockets, the routes, and how many descriptors and
/// binding identifiers were given out.
#[derive(Debug)]
pub struct VirtualNetwork {
    pub clients: HashMap<i32, Client>,
    pub num_clients: i32,
    pub routes: Vec<Route>,
    pub num_bindings: u64,
}

impl VirtualNetwork {
    /// Whether `binding_id` was given out by [`VirtualNetwork::add_physical_binding`].
    pub open spec fn has_binding(&self, binding_id: u64) -> bool {
        binding_id < self.num_bindings
    }

    /// A network without sockets, routes or bindings.
    pub fn new_mctp_network() -> (n: Self)
        ensures
            n.clients@ == Map::<i32, Client>::empty(),
            n.num_clients == 0,
            n.routes@ == Seq::<Route>::empty(),
            n.num_bindings == 0,
    {
        VirtualNetwork {
            clients: HashMap::new(),
            num_clients: 0,
            routes: Vec::new(),
            num_bindings: 0,
        }
    }

    /// `Ok` exactly for the identifiers that were given out.
    pub fn get_binding(&self, binding_id: u64) -> (r: Result<(), Error>)
        ensures
            self.has_binding(binding_id) ==> r == Ok::<(), Error>(()),
            !self.has_binding(binding_id) ==> r == Err::<(), Error>(
                Error::InvalidBindingError { binding_id },
            ),
    {
        if binding_id < self.num_bindings {
            Ok(())
        } else {
            Err(Error::InvalidBindingError { binding_id })
        }
    }

    /// What socket `sd` is bound to.
    pub fn get_client(&self, sd: i32) -> (r: MctpEmuResult<Client>)
        ensures
            self.clients@.contains_key(sd) ==> r == Ok::<Client, MctpEmuError>(self.clients@[sd]),
            !self.clients@.contains_key(sd) ==> r == Err::<Client, MctpEmuError>(
                MctpEmuError::Network(Error::InvalidSocketError { sd }),
            ),
    {
        match self.clients.get(&sd) {
            Some(client) => Ok(*client),
            None => Err(MctpEmuError::Network(Error::InvalidSocketError { sd })),
        }
    }

    /// Appends a route; routes added earlier are preferred.
    pub fn add_route(&mut self, route: Route)
        ensures
            final(self).routes@ == old(self).routes@.push(route),
            final(self).clients@ == old(self).clients@,
            final(self).num_clients == old(self).num_clients,
            final(self).num_bindings == old(self).num_bindings,
    {
        self.routes.push(route);
    }

    /// The first route that leads to endpoint `daddr` of network `dnet`.
    pub fn route_lookup(&self, dnet: u32, daddr: u8) -> (r: Option<Route>)
        ensures
            r == first_route(self.routes@, dnet, daddr),
    {
        let mut i: usize = 0;
        assert(self.routes@.skip(0) == self.routes@);
        while i < self.routes.len()
            invariant
                i <= self.routes.len(),
                first_route(self.routes@, dnet, daddr) == first_route(
                    self.routes@.skip(i as int),
                    dnet,
                    daddr,
                ),
            decreases self.routes.len() - i,
        {
            let route = self.routes[i];
            assert(self.routes@.skip(i as int)[0] == route);
            if route.matches(dnet, daddr) {
                return Some(route);
            }
            assert(self.routes@.skip(i as int).skip(1) == self.routes@.skip(i + 1));
            i = i + 1;
        }
        None
    }

    /// The route by which a message to `addr` leaves.
    ///
    /// Only an extended address names its network; a basic one is refused. An address
    /// to which no route leads is refused as well.
    pub fn resolve_route(&self, addr: SocketAddress) -> (r: MctpEmuResult<Route>)
        ensures
            addr is Basic ==> {
                &&& r matches Err(MctpEmuError::Network(Error::Other { msg }))
                &&& msg@ == "looking up routes is not yet supported"@
            },
            addr is Extended ==> match first_route(
                self.routes@,
                addr->network,
                addr->Extended_address,
            ) {
                Some(route) => r == Ok::<Route, MctpEmuError>(route),
                None => {
                    &&& r matches Err(MctpEmuError::Other { msg })
                    &&& msg@ == "route not found"@
                },
            },
    {
        match addr {
            SocketAddress::Extended { address, network, binding_id: _, phy_addr: _ } => {
                match self.route_lookup(network, address) {
                    Some(route) => Ok(route),
                    None => Err(MctpEmuError::Other { msg: "route not found".to_owned() }),
                }
            },
            SocketAddress::Basic { .. } => Err(
                MctpEmuError::Network(
                    Error::Other { msg: "looking up routes is not yet supported".to_owned() },
                ),
            ),
        }
    }

    /// Gives out the next socket descriptor: descriptors count up from zero, and every
    /// descriptor that was given out stays known.
    pub fn socket(&mut self) -> (sd: i32)
        requires
            old(self).num_clients < i32::MAX,
        ensures
            sd == old(self).num_clients,
            final(self).num_clients == sd + 1,
            sd >= 0 ==> final(self).has_socket(sd),
            forall|earlier: i32| old(self).has_socket(earlier) ==> final(self).has_socket(earlier),
            final(self).clients@ == old(self).clients@,
            final(self).routes@ == old(self).routes@,
            final(self).num_bindings == old(self).num_bindings,
    {
        let sd = self.num_clients;
        self.num_clients = sd + 1;
        sd
    }

    /// Whether `sd` was given out by [`VirtualNetwork::socket`].
    pub open spec fn has_socket(&self, sd: i32) -> bool {
        0 <= sd < self.num_clients
    }

    /// Binds socket `sd` to a local endpoint, a message type and a tag; a second binding
    /// replaces the first. A descriptor that was never given out is refused.
    pub fn bind(&mut self, sd: i32, address: u8, msg_type: u8, tag: u8) -> (r: MctpEmuResult<()>)
        ensures
            final(self).num_clients == old(self).num_clients,
            final(self).num_bindings == old(self).num_bindings,
            final(self).routes@ == old(self).routes@,
            old(self).has_socket(sd) ==> r == Ok::<(), MctpEmuError>(())
                && final(self).clients@ == old(self).clients@.insert(
                sd,
                Client { address, msg_type, tag },
            ),
            !old(self).has_socket(sd) ==> r == Err::<(), MctpEmuError>(
                MctpEmuError::Network(Error::InvalidSocketError { sd }),
            ) && final(self).clients@ == old(self).clients@,
    {
        if sd < 0 || sd >= self.num_clients {
            return Err(MctpEmuError::Network(Error::InvalidSocketError { sd }));
        }
        let client = Client::new(address, msg_type, tag);
        self.clients.insert(sd, client);
        Ok(())
    }

    /// Gives out the identifier for one more physical binding: identifiers count up
    /// from zero.
    pub fn add_physical_binding(&mut self) -> (binding_id: u64)
        requires
            old(self).num_bindings < u64::MAX,
        ensures
            binding_id == old(self).num_bindings,
            final(self).num_bindings == binding_id + 1,
            final(self).has_binding(binding_id),
            !old(self).has_binding(binding_id),
            final(self).clients@ == old(self).clients@,
            final(self).num_clients == old(self).num_clients,
            final(self).routes@ == old(self).routes@,
    {
        let binding_id = self.num_bindings;
        self.num_bindings = binding_id + 1;
        binding_id
    }
}

} // verus!
