//! Which resource of the compositor stands for which resource of the client.

use crate::table::Table;
use vstd::prelude::*;

verus! {

/// A one-to-one relation between the resources of a client and those of its
/// compositor.
pub struct WaylandResourceMap {
    client_to_backend: Table<u32, u32>,
    backend_to_client: Table<u32, u32>,
}

/// The value of such a relation, read in either direction.
#[verifier::ext_equal]
pub struct ResourcesView {
    pub client_to_backend: Map<u32, u32>,
    pub backend_to_client: Map<u32, u32>,
}

impl ResourcesView {
    /// No resources.
    pub open spec fn empty() -> Self {
        ResourcesView { client_to_backend: Map::empty(), backend_to_client: Map::empty() }
    }

    /// Whether both directions say the same.
    pub open spec fn one_to_one(self) -> bool {
        &&& forall|client: u32| #[trigger]
            self.client_to_backend.contains_key(client) ==> self.backend_to_client.contains_key(
                self.client_to_backend[client],
            ) && self.backend_to_client[self.client_to_backend[client]] == client
        &&& forall|backend: u32| #[trigger]
            self.backend_to_client.contains_key(backend) ==> self.client_to_backend.contains_key(
                self.backend_to_client[backend],
            ) && self.client_to_backend[self.backend_to_client[backend]] == backend
    }

    /// The resource of the compositor for one of the client.
    pub open spec fn backend_of(self, client: u32) -> Option<u32> {
        if self.client_to_backend.contains_key(client) {
            Some(self.client_to_backend[client])
        } else {
            None
        }
    }

    /// The resource of the client for one of the compositor.
    pub open spec fn client_of(self, backend: u32) -> Option<u32> {
        if self.backend_to_client.contains_key(backend) {
            Some(self.backend_to_client[backend])
        } else {
            None
        }
    }

    /// Without the pair of a resource of the client.
    pub open spec fn without_client(self, client: u32) -> Self {
        match self.backend_of(client) {
            Some(backend) => ResourcesView {
                client_to_backend: self.client_to_backend.remove(client),
                backend_to_client: self.backend_to_client.remove(backend),
            },
            None => self,
        }
    }

    /// Without the pair of a resource of the compositor.
    pub open spec fn without_backend(self, backend: u32) -> Self {
        match self.client_of(backend) {
            Some(client) => ResourcesView {
                client_to_backend: self.client_to_backend.remove(client),
                backend_to_client: self.backend_to_client.remove(backend),
            },
            None => self,
        }
    }

    /// With a pair. A pair that either of its resources was in goes.
    pub open spec fn with_pair(self, client: u32, backend: u32) -> Self {
        let free = self.without_client(client).without_backend(backend);
        ResourcesView {
            client_to_backend: free.client_to_backend.insert(client, backend),
            backend_to_client: free.backend_to_client.insert(backend, client),
        }
    }
}

impl View for WaylandResourceMap {
    type V = ResourcesView;

    closed spec fn view(&self) -> ResourcesView {
        ResourcesView {
            client_to_backend: self.client_to_backend@,
            backend_to_client: self.backend_to_client@,
        }
    }
}

impl Default for WaylandResourceMap {
    fn default() -> (map: Self)
        ensures
            map@ == ResourcesView::empty(),
    {
        WaylandResourceMap { client_to_backend: Table::new(), backend_to_client: Table::new() }
    }
}

impl WaylandResourceMap {
    /// Pairs two resources, in place of the pairs that they were in.
    pub fn map(&mut self, client_resource_id: u32, backend_resource_id: u32)
        ensures
            final(self)@ == old(self)@.with_pair(client_resource_id, backend_resource_id),
            old(self)@.one_to_one() ==> final(self)@.one_to_one(),
    {
        if let Some(previous_backend) = self.client_to_backend.remove(client_resource_id) {
            self.backend_to_client.remove(previous_backend);
        } else {
            assert(self@ =~= old(self)@);
        }
        if let Some(previous_client) = self.backend_to_client.remove(backend_resource_id) {
            self.client_to_backend.remove(previous_client);
        } else {
            assert(self@ =~= old(self)@.without_client(client_resource_id));
        }
        self.client_to_backend.insert(client_resource_id, backend_resource_id);
        self.backend_to_client.insert(backend_resource_id, client_resource_id);
        proof {
            if old(self)@.one_to_one() {
                pairing_stays_one_to_one(old(self)@, client_resource_id, backend_resource_id);
            }
        }
    }

    /// Takes out the pair of a resource of the client, and says which resource
    /// of the compositor was in it.
    pub fn unmap_client(&mut self, client_resource_id: u32) -> (backend_resource_id: Option<u32>)
        ensures
            backend_resource_id == old(self)@.backend_of(client_resource_id),
            final(self)@ == old(self)@.without_client(client_resource_id),
    {
        match self.client_to_backend.remove(client_resource_id) {
            Some(backend_resource_id) => {
                self.backend_to_client.remove(backend_resource_id);
                Some(backend_resource_id)
            },
            None => {
                assert(self@ =~= old(self)@);
                None
            },
        }
    }

    /// The resource of the compositor for one of the client.
    pub fn backend_for(&self, client_resource_id: u32) -> (backend_resource_id: Option<u32>)
        ensures
            backend_resource_id == self@.backend_of(client_resource_id),
    {
        match self.client_to_backend.get(client_resource_id) {
            Some(backend_resource_id) => Some(*backend_resource_id),
            None => None,
        }
    }

    /// The resource of the client for one of the compositor.
    pub fn client_for(&self, backend_resource_id: u32) -> (client_resource_id: Option<u32>)
        ensures
            client_resource_id == self@.client_of(backend_resource_id),
    {
        match self.backend_to_client.get(backend_resource_id) {
            Some(client_resource_id) => Some(*client_resource_id),
            None => None,
        }
    }

    /// How many pairs there are.
    pub fn len(&self) -> (count: usize)
        ensures
            count == self@.client_to_backend.dom().len(),
    {
        self.client_to_backend.len()
    }
}

/// The relation stays one-to-one when two resources are paired, and both are
/// found by each other afterwards.
pub proof fn pairing_stays_one_to_one(map: ResourcesView, client: u32, backend: u32)
    requires
        map.one_to_one(),
    ensures
        map.with_pair(client, backend).one_to_one(),
        map.with_pair(client, backend).backend_of(client) == Some(backend),
        map.with_pair(client, backend).client_of(backend) == Some(client),
{
}

/// The relation stays one-to-one when a pair is taken out, and neither of its
/// resources is in a pair afterwards.
pub proof fn unpairing_stays_one_to_one(map: ResourcesView, client: u32)
    requires
        map.one_to_one(),
    ensures
        map.without_client(client).one_to_one(),
        map.without_client(client).backend_of(client) is None,
        map.backend_of(client) matches Some(backend) ==> map.without_client(client).client_of(
            backend,
        ) is None,
{
}

/// Taking out a pair undoes the pairing of two resources that were free.
pub proof fn unpairing_undoes_pairing(map: ResourcesView, client: u32, backend: u32)
    requires
        map.one_to_one(),
        map.backend_of(client) is None,
        map.client_of(backend) is None,
    ensures
        map.with_pair(client, backend).without_client(client) == map,
{
    assert(map.with_pair(client, backend).without_client(client) =~= map);
}

/// A pair leaves all other pairs as they are, but those that it takes a resource from.
pub proof fn other_pairs_stay(map: ResourcesView, client: u32, backend: u32, other: u32)
    requires
        map.one_to_one(),
        other != client,
        map.backend_of(other) != Some(backend),
    ensures
        map.with_pair(client, backend).backend_of(other) == map.backend_of(other),
        map.without_client(client).backend_of(other) == map.backend_of(other),
{
}

} // verus!
