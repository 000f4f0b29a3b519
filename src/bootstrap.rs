use vstd::prelude::*;

use crate::config::{bound_to_gateway, Config, ConfigError, ConfigModel, GatewayEndpoint, GatewayModel};
use crate::store::ConfigStore;

verus! {

/// Why gateway registration failed, as the registration service reported it.
#[derive(Debug)]
pub struct RegistrationError {
    pub message: String,
}

/// The store after a successful bootstrap of `config` with the registered `gateway`.
pub open spec fn bootstrapped(
    store: Map<Seq<char>, ConfigModel>,
    config: ConfigModel,
    gateway: GatewayModel,
) -> Map<Seq<char>, ConfigModel> {
    store.insert(config.base.id, bound_to_gateway(config, gateway))
}

/// Completes a bootstrap once gateway registration has answered: on success the
/// configuration is bound to the gateway, cover traffic is turned off and the
/// result is saved under the configuration's identifier, replacing any earlier
/// one; on failure the store is left as it was.
pub fn finish_bootstrap(
    store: &mut ConfigStore,
    config: Config,
    registration: Result<GatewayEndpoint, RegistrationError>,
) -> (r: Result<(), ConfigError>)
    requires
        old(store).wf(),
    ensures
        final(store).wf(),
        r is Ok <==> registration is Ok,
        r matches Err(e) ==> e == ConfigError::Registration,
        registration matches Ok(g) ==> final(store)@ == bootstrapped(old(store)@, config@, g@),
        registration is Err ==> final(store)@ == old(store)@,
{
    match registration {
        Ok(gateway) => {
            let mut config = config;
            config.bind_gateway(gateway);
            let id = config.get_base().id().clone();
            store.save(id.as_str(), config);
            Ok(())
        },
        Err(_) => Err(ConfigError::Registration),
    }
}

/// After a bootstrap, the store holds a configuration under the bootstrapped
/// identifier, and its gateway is the one that registration returned.
pub proof fn lemma_bootstrap_then_start(
    store: Map<Seq<char>, ConfigModel>,
    config: ConfigModel,
    gateway: GatewayModel,
)
    ensures
        bootstrapped(store, config, gateway).contains_key(config.base.id),
        bootstrapped(store, config, gateway)[config.base.id].base.gateway == gateway,
{
}

/// Bootstrapping the same identifier twice keeps only the second configuration:
/// the store is as if the first bootstrap had never happened.
pub proof fn lemma_bootstrap_overwrites(
    store: Map<Seq<char>, ConfigModel>,
    first: ConfigModel,
    first_gateway: GatewayModel,
    second: ConfigModel,
    second_gateway: GatewayModel,
)
    requires
        first.base.id == second.base.id,
    ensures
        bootstrapped(bootstrapped(store, first, first_gateway), second, second_gateway)
            == bootstrapped(store, second, second_gateway),
        bootstrapped(bootstrapped(store, first, first_gateway), second, second_gateway)[second.base.id]
            == bound_to_gateway(second, second_gateway),
{
    assert(bootstrapped(bootstrapped(store, first, first_gateway), second, second_gateway)
        =~= bootstrapped(store, second, second_gateway));
}

} // verus!
