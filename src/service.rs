//! Decisions taken while a node's services are put together: the node's
//! role, the inherent data providers, and whether and how the mining loop
//! is started.

use vstd::prelude::*;
use crate::import::Chain;
use crate::mining::MiningConfig;

verus! {

/// What a node does in the network.
#[derive(Clone, Copy, Debug, PartialEq, Eq, Structural)]
pub enum NodeRole {
    /// Produces blocks.
    Authority,
    /// Announces itself as an authority but never produces blocks.
    Sentry,
    /// Follows headers only.
    Light,
    /// Imports and executes full blocks without producing any.
    Full,
}

/// Failures while the node is put together; each one stops its start.
#[derive(Clone, Copy, Debug, PartialEq, Eq, Structural)]
pub enum ServiceError {
    /// The import filter was not captured when the import queue was built.
    ImportSetupMissing,
    /// Mining needs a chain selection and there was none.
    SelectChainRequired,
    /// An inherent data provider was registered twice.
    InherentDataProviderExists,
}

/// The role of a node from its configuration.
pub open spec fn role_of(light: bool, is_authority: bool, sentry_mode: bool) -> NodeRole {
    if light {
        NodeRole::Light
    } else if is_authority && sentry_mode {
        NodeRole::Sentry
    } else if is_authority {
        NodeRole::Authority
    } else {
        NodeRole::Full
    }
}

pub fn node_role(light: bool, is_authority: bool, sentry_mode: bool) -> (r: NodeRole)
    ensures
        r == role_of(light, is_authority, sentry_mode),
{
    if light {
        NodeRole::Light
    } else if is_authority && sentry_mode {
        NodeRole::Sentry
    } else if is_authority {
        NodeRole::Authority
    } else {
        NodeRole::Full
    }
}

/// Whether a node of this role runs the mining loop: only a producing
/// authority does.
pub fn participates_in_consensus(role: NodeRole) -> (r: bool)
    ensures
        r == (role == NodeRole::Authority),
{
    match role {
        NodeRole::Authority => true,
        _ => false,
    }
}

/// The identifier under which the timestamp provider is registered.
pub open spec fn timestamp_id() -> Seq<u8> {
    seq![116u8, 105u8, 109u8, 115u8, 116u8, 97u8, 112u8, 48u8]
}

/// The inherent data providers of a node, by identifier; each registered once.
pub struct InherentDataProviders {
    ids: Vec<Vec<u8>>,
}

impl View for InherentDataProviders {
    type V = Seq<Seq<u8>>;

    closed spec fn view(&self) -> Seq<Seq<u8>> {
        self.ids@.map_values(|id: Vec<u8>| id@)
    }
}

impl InherentDataProviders {
    pub open spec fn wf(&self) -> bool {
        forall|i: int, j: int| 0 <= i < j < self@.len() ==> self@[i] != self@[j]
    }

    pub fn new() -> (r: InherentDataProviders)
        ensures
            r@ == Seq::<Seq<u8>>::empty(),
            r.wf(),
    {
        let r = InherentDataProviders { ids: Vec::new() };
        assert(r@ =~= Seq::<Seq<u8>>::empty());
        r
    }

    /// Adds a provider under `id`; an identifier already taken is refused.
    pub fn register_provider(&mut self, id: &Vec<u8>) -> (r: Result<(), ServiceError>)
        requires
            old(self).wf(),
        ensures
            final(self).wf(),
            old(self)@.contains(id@) ==> {
                &&& r == Err::<(), ServiceError>(ServiceError::InherentDataProviderExists)
                &&& final(self)@ == old(self)@
            },
            !old(self)@.contains(id@) ==> r is Ok && final(self)@ == old(self)@.push(id@),
    {
        let mut i: usize = 0;
        while i < self.ids.len()
            invariant
                i <= self@.len(),
                self@.len() == self.ids@.len(),
                self@ == old(self)@,
                self.wf(),
                forall|j: int| 0 <= j < i ==> self@[j] != id@,
            decreases self@.len() - i,
        {
            if same_bytes(&self.ids[i], id) {
                assert(self@[i as int] == id@);
                return Err(ServiceError::InherentDataProviderExists);
            }
            i = i + 1;
        }
        let ghost before = self@;
        self.ids.push(copy_id(id));
        assert(self@ =~= before.push(id@));
        Ok(())
    }

    /// Whether a provider is registered under `id`.
    pub fn is_registered(&self, id: &Vec<u8>) -> (r: bool)
        ensures
            r == self@.contains(id@),
    {
        let mut i: usize = 0;
        while i < self.ids.len()
            invariant
                i <= self@.len(),
                self@.len() == self.ids@.len(),
                forall|j: int| 0 <= j < i ==> self@[j] != id@,
            decreases self@.len() - i,
        {
            if same_bytes(&self.ids[i], id) {
                assert(self@[i as int] == id@);
                return true;
            }
            i = i + 1;
        }
        false
    }
}

pub fn timestamp_identifier() -> (r: Vec<u8>)
    ensures
        r@ == timestamp_id(),
{
    let r: Vec<u8> = vec![116u8, 105u8, 109u8, 115u8, 116u8, 97u8, 112u8, 48u8];
    assert(r@ =~= timestamp_id());
    r
}

/// The node's inherent data providers: the wall-clock timestamp alone.
pub fn build_inherent_data_providers() -> (r: Result<InherentDataProviders, ServiceError>)
    ensures
        r matches Ok(p) && p@ == seq![timestamp_id()] && p.wf(),
{
    let mut providers = InherentDataProviders::new();
    let id = timestamp_identifier();
    match providers.register_provider(&id) {
        Ok(()) => {},
        Err(e) => return Err(e),
    }
    assert(providers@ =~= seq![timestamp_id()]);
    Ok(providers)
}

/// The import filter captured while the import queue was built, shared by
/// the import pipeline and the mining loop.
pub struct ImportSetup {
    pub chain: Chain,
}

/// A composed full node: its import filter and, for an authority, the
/// configuration of its mining loop.
pub struct FullService {
    pub role: NodeRole,
    pub import: ImportSetup,
    pub inherent_data: InherentDataProviders,
    pub mining: Option<MiningConfig>,
}

/// Composes a full node. The captured import filter must be present; a node
/// that mines also needs a chain selection. The mining loop is configured
/// exactly for an authority.
pub fn new_full(role: NodeRole, import_setup: Option<ImportSetup>, select_chain_available: bool) -> (r: Result<FullService, ServiceError>)
    ensures
        import_setup is None ==> r == Err::<FullService, ServiceError>(ServiceError::ImportSetupMissing),
        import_setup is Some && role == NodeRole::Authority && !select_chain_available
            ==> r == Err::<FullService, ServiceError>(ServiceError::SelectChainRequired),
        import_setup is Some && (role != NodeRole::Authority || select_chain_available) ==> (r matches Ok(s) && {
            &&& s.role == role
            &&& s.import == import_setup->0
            &&& s.inherent_data@ == seq![timestamp_id()]
            &&& (role == NodeRole::Authority ==> s.mining == Some((MiningConfig { round_budget: 500, retry_delay_secs: 2 })))
            &&& (role != NodeRole::Authority ==> s.mining is None)
        }),
{
    let inherent_data = match build_inherent_data_providers() {
        Ok(p) => p,
        Err(e) => return Err(e),
    };
    let import = match import_setup {
        Some(s) => s,
        None => return Err(ServiceError::ImportSetupMissing),
    };
    let mining = if participates_in_consensus(role) {
        if !select_chain_available {
            return Err(ServiceError::SelectChainRequired);
        }
        Some(MiningConfig::standard())
    } else {
        None
    };
    Ok(FullService { role, import, inherent_data, mining })
}

/// A composed light node: headers only, never mining.
pub struct LightService {
    pub inherent_data: InherentDataProviders,
}

/// Composes a light node.
pub fn new_light() -> (r: Result<LightService, ServiceError>)
    ensures
        r matches Ok(s) && s.inherent_data@ == seq![timestamp_id()],
{
    match build_inherent_data_providers() {
        Ok(p) => Ok(LightService { inherent_data: p }),
        Err(e) => Err(e),
    }
}

fn same_bytes(a: &Vec<u8>, b: &Vec<u8>) -> (r: bool)
    ensures
        r == (a@ == b@),
{
    if a.len() != b.len() {
        return false;
    }
    let mut i: usize = 0;
    while i < a.len()
        invariant
            i <= a@.len(),
            a@.len() == b@.len(),
            forall|j: int| 0 <= j < i ==> a@[j] == b@[j],
        decreases a@.len() - i,
    {
        if a[i] != b[i] {
            return false;
        }
        i = i + 1;
    }
    assert(a@ =~= b@);
    true
}

fn copy_id(id: &Vec<u8>) -> (r: Vec<u8>)
    ensures
        r@ == id@,
{
    crate::import::copy_bytes(id)
}

} // verus!
