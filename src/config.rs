use vstd::prelude::*;
use vstd::string::*;

verus! {

/// Prefix of every identifier that names a proxy client configuration.
pub const SOCKS5_CONFIG_ID: &'static str = "nym-harbour-master";

/// The configuration identifier for a client bound to the given gateway.
pub open spec fn config_id_for(gateway_id: Seq<char>) -> Seq<char> {
    SOCKS5_CONFIG_ID@ + "-"@ + gateway_id
}

/// Errors of the configuration bootstrap.
#[derive(Debug, Clone, Copy, PartialEq, Eq, Structural)]
pub enum ConfigError {
    /// Gateway registration failed.
    Registration,
    /// The configuration could not be written to the store.
    Persistence,
    /// The isolated initialisation context panicked.
    InitializationPanic,
}

/// Builds the configuration identifier `nym-harbour-master-<gateway_id>`.
pub fn socks5_config_id_appended_with(gateway_id: &str) -> (r: Result<String, ConfigError>)
    ensures
        r is Ok,
        r matches Ok(id) ==> id@ == config_id_for(gateway_id@),
{
    let id = String::from_str(SOCKS5_CONFIG_ID);
    let id = id.concat("-");
    let id = id.concat(gateway_id);
    Ok(id)
}

/// The gateway a client is registered with.
#[derive(Debug)]
pub struct GatewayEndpoint {
    pub gateway_id: String,
    pub gateway_owner: String,
    pub gateway_listener: String,
}

/// Mathematical value of a [`GatewayEndpoint`].
pub struct GatewayModel {
    pub gateway_id: Seq<char>,
    pub gateway_owner: Seq<char>,
    pub gateway_listener: Seq<char>,
}

impl View for GatewayEndpoint {
    type V = GatewayModel;

    open spec fn view(&self) -> GatewayModel {
        GatewayModel {
            gateway_id: self.gateway_id@,
            gateway_owner: self.gateway_owner@,
            gateway_listener: self.gateway_listener@,
        }
    }
}

/// The endpoint of a client that is not registered with any gateway yet.
pub open spec fn unset_gateway() -> GatewayModel {
    GatewayModel { gateway_id: Seq::empty(), gateway_owner: Seq::empty(), gateway_listener: Seq::empty() }
}

impl GatewayEndpoint {
    /// An endpoint with every field empty.
    pub fn unset() -> (r: GatewayEndpoint)
        ensures
            r@ == unset_gateway(),
    {
        GatewayEndpoint { gateway_id: String::new(), gateway_owner: String::new(), gateway_listener: String::new() }
    }

    /// A field-by-field copy.
    pub fn duplicate(&self) -> (r: GatewayEndpoint)
        ensures
            r@ == self@,
    {
        GatewayEndpoint {
            gateway_id: self.gateway_id.clone(),
            gateway_owner: self.gateway_owner.clone(),
            gateway_listener: self.gateway_listener.clone(),
        }
    }
}

/// The strings of a vector, as a sequence of character sequences.
pub open spec fn strings_view(v: Seq<String>) -> Seq<Seq<char>> {
    v.map_values(|s: String| s@)
}

/// Copies a vector of strings.
fn copy_strings(v: &Vec<String>) -> (r: Vec<String>)
    ensures
        strings_view(r@) == strings_view(v@),
{
    let mut r: Vec<String> = Vec::new();
    let mut i: usize = 0;
    proof {
        assert(strings_view(r@) =~= strings_view(v@.subrange(0, 0)));
    }
    while i < v.len()
        invariant
            i <= v@.len(),
            strings_view(r@) == strings_view(v@.subrange(0, i as int)),
        decreases v@.len() - i,
    {
        let ghost prev = r@;
        r.push(v[i].clone());
        proof {
            assert(r@ == prev.push(v@[i as int]));
            assert(strings_view(r@) =~= strings_view(prev).push(v@[i as int]@));
            assert(strings_view(v@.subrange(0, i + 1)) =~= strings_view(v@.subrange(0, i as int)).push(
                v@[i as int]@,
            ));
        }
        i = i + 1;
    }
    proof {
        assert(v@.subrange(0, v@.len() as int) == v@);
    }
    r
}

/// Whether a character separates two entries of an endpoint list.
pub open spec fn is_url_separator(c: char) -> bool {
    c == ',' || c == ' ' || c == '\t' || c == '\n' || c == '\r'
}

/// `done`, followed by `cur` when `cur` is not empty.
pub open spec fn flush_entry(done: Seq<Seq<char>>, cur: Seq<char>) -> Seq<Seq<char>> {
    if cur.len() == 0 {
        done
    } else {
        done.push(cur)
    }
}

/// Splits `rest`, having already found the entries `done` and the unfinished entry `cur`.
pub open spec fn split_entries(rest: Seq<char>, done: Seq<Seq<char>>, cur: Seq<char>) -> Seq<Seq<char>>
    decreases rest.len(),
{
    if rest.len() == 0 {
        flush_entry(done, cur)
    } else if is_url_separator(rest[0]) {
        split_entries(rest.drop_first(), flush_entry(done, cur), Seq::empty())
    } else {
        split_entries(rest.drop_first(), done, cur.push(rest[0]))
    }
}

/// The non-empty entries of a list separated by commas or whitespace, in order.
pub open spec fn split_urls(raw: Seq<char>) -> Seq<Seq<char>> {
    split_entries(raw, Seq::empty(), Seq::empty())
}

fn is_separator(c: char) -> (r: bool)
    ensures
        r == is_url_separator(c),
{
    c == ',' || c == ' ' || c == '\t' || c == '\n' || c == '\r'
}

/// Splits a comma or whitespace separated list of API endpoints into its non-empty entries.
pub fn parse_urls(raw: &str) -> (r: Vec<String>)
    ensures
        strings_view(r@) == split_urls(raw@),
{
    let n = raw.unicode_len();
    let mut out: Vec<String> = Vec::new();
    let mut start: usize = 0;
    let mut i: usize = 0;
    proof {
        assert(raw@.subrange(0, n as int) =~= raw@);
        assert(raw@.subrange(0, 0) =~= Seq::<char>::empty());
        assert(strings_view(out@) =~= Seq::<Seq<char>>::empty());
    }
    while i < n
        invariant
            n == raw@.len(),
            start <= i <= n,
            split_entries(raw@.subrange(i as int, n as int), strings_view(out@), raw@.subrange(start as int, i as int))
                == split_urls(raw@),
        decreases n - i,
    {
        let c = raw.get_char(i);
        proof {
            assert(raw@.subrange(i as int, n as int).drop_first() =~= raw@.subrange(i + 1, n as int));
        }
        if is_separator(c) {
            if start < i {
                let ghost before = strings_view(out@);
                let piece = raw.substring_char(start, i).to_owned();
                out.push(piece);
                proof {
                    assert(strings_view(out@) =~= flush_entry(before, raw@.subrange(start as int, i as int)));
                }
            }
            proof {
                assert(raw@.subrange(i + 1, i + 1) =~= Seq::<char>::empty());
            }
            start = i + 1;
        } else {
            proof {
                assert(raw@.subrange(start as int, i + 1) =~= raw@.subrange(start as int, i as int).push(c));
            }
        }
        i = i + 1;
    }
    let ghost before = strings_view(out@);
    if start < n {
        let piece = raw.substring_char(start, n).to_owned();
        out.push(piece);
    }
    proof {
        assert(raw@.subrange(n as int, n as int) =~= Seq::<char>::empty());
        assert(strings_view(out@) =~= flush_entry(before, raw@.subrange(start as int, n as int)));
    }
    out
}

/// The client settings shared by every kind of client.
#[derive(Debug)]
pub struct BaseConfig {
    id: String,
    gateway_endpoint: GatewayEndpoint,
    no_cover_traffic: bool,
    custom_nym_apis: Option<Vec<String>>,
}

/// Mathematical value of a [`BaseConfig`].
pub struct BaseModel {
    pub id: Seq<char>,
    pub gateway: GatewayModel,
    pub no_cover_traffic: bool,
    pub custom_nym_apis: Option<Seq<Seq<char>>>,
}

/// The view of an optional list of endpoints.
pub open spec fn apis_view(apis: Option<Vec<String>>) -> Option<Seq<Seq<char>>> {
    match apis {
        Some(v) => Some(strings_view(v@)),
        None => None,
    }
}

impl View for BaseConfig {
    type V = BaseModel;

    closed spec fn view(&self) -> BaseModel {
        BaseModel {
            id: self.id@,
            gateway: self.gateway_endpoint@,
            no_cover_traffic: self.no_cover_traffic,
            custom_nym_apis: apis_view(self.custom_nym_apis),
        }
    }
}

impl BaseConfig {
    pub fn id(&self) -> (r: &String)
        ensures
            r@ == self@.id,
    {
        &self.id
    }

    pub fn get_gateway_endpoint(&self) -> (r: &GatewayEndpoint)
        ensures
            r@ == self@.gateway,
    {
        &self.gateway_endpoint
    }

    pub fn no_cover_traffic(&self) -> (r: bool)
        ensures
            r == self@.no_cover_traffic,
    {
        self.no_cover_traffic
    }

    /// The endpoints configured instead of the compiled-in defaults, if any.
    pub fn custom_nym_apis(&self) -> (r: Option<Vec<String>>)
        ensures
            apis_view(r) == self@.custom_nym_apis,
    {
        match &self.custom_nym_apis {
            Some(v) => Some(copy_strings(v)),
            None => None,
        }
    }

    pub fn set_gateway_endpoint(&mut self, gateway: GatewayEndpoint)
        ensures
            final(self)@ == (BaseModel { gateway: gateway@, ..old(self)@ }),
    {
        self.gateway_endpoint = gateway;
    }

    /// Turns cover traffic off.
    pub fn set_no_cover_traffic(&mut self)
        ensures
            final(self)@ == (BaseModel { no_cover_traffic: true, ..old(self)@ }),
    {
        self.no_cover_traffic = true;
    }

    /// Replaces the compiled-in API endpoints by `apis`.
    pub fn set_custom_nym_apis(&mut self, apis: Vec<String>)
        ensures
            final(self)@ == (BaseModel { custom_nym_apis: Some(strings_view(apis@)), ..old(self)@ }),
    {
        self.custom_nym_apis = Some(apis);
    }

    /// A field-by-field copy.
    pub fn duplicate(&self) -> (r: BaseConfig)
        ensures
            r@ == self@,
    {
        BaseConfig {
            id: self.id.clone(),
            gateway_endpoint: self.gateway_endpoint.duplicate(),
            no_cover_traffic: self.no_cover_traffic,
            custom_nym_apis: self.custom_nym_apis(),
        }
    }
}

/// The configuration of one proxy client.
#[derive(Debug)]
pub struct Config {
    base: BaseConfig,
    provider_mix_address: String,
}

/// Mathematical value of a [`Config`].
pub struct ConfigModel {
    pub base: BaseModel,
    pub provider_mix_address: Seq<char>,
}

impl View for Config {
    type V = ConfigModel;

    closed spec fn view(&self) -> ConfigModel {
        ConfigModel { base: self.base@, provider_mix_address: self.provider_mix_address@ }
    }
}

/// A fresh configuration: no gateway yet, cover traffic on, default API endpoints.
pub open spec fn fresh_config(id: Seq<char>, provider_mix_address: Seq<char>) -> ConfigModel {
    ConfigModel {
        base: BaseModel { id, gateway: unset_gateway(), no_cover_traffic: false, custom_nym_apis: None },
        provider_mix_address,
    }
}

/// `config` bound to `gateway`, with cover traffic off.
pub open spec fn bound_to_gateway(config: ConfigModel, gateway: GatewayModel) -> ConfigModel {
    ConfigModel { base: BaseModel { gateway, no_cover_traffic: true, ..config.base }, ..config }
}

/// The view of an optional string slice.
pub open spec fn str_opt_view(o: Option<&str>) -> Option<Seq<char>> {
    match o {
        Some(s) => Some(s@),
        None => None,
    }
}

/// `config` with the endpoint override `raw` applied, where one is given.
pub open spec fn with_api_override(config: ConfigModel, raw: Option<Seq<char>>) -> ConfigModel {
    match raw {
        Some(r) => ConfigModel {
            base: BaseModel { custom_nym_apis: Some(split_urls(r)), ..config.base },
            ..config
        },
        None => config,
    }
}

impl Config {
    pub fn new(id: &str, provider_mix_address: &str) -> (r: Config)
        ensures
            r@ == fresh_config(id@, provider_mix_address@),
    {
        Config {
            base: BaseConfig {
                id: id.to_owned(),
                gateway_endpoint: GatewayEndpoint::unset(),
                no_cover_traffic: false,
                custom_nym_apis: None,
            },
            provider_mix_address: provider_mix_address.to_owned(),
        }
    }

    pub fn get_base(&self) -> (r: &BaseConfig)
        ensures
            r@ == self@.base,
    {
        &self.base
    }

    pub fn get_base_mut(&mut self) -> (r: &mut BaseConfig)
        ensures
            r@ == old(self)@.base,
            final(self)@ == (ConfigModel { base: final(r)@, ..old(self)@ }),
    {
        &mut self.base
    }

    pub fn provider_mix_address(&self) -> (r: &String)
        ensures
            r@ == self@.provider_mix_address,
    {
        &self.provider_mix_address
    }

    /// Uses the endpoints listed in `raw`, when given, instead of the compiled-in defaults.
    pub fn apply_nym_api_override(&mut self, raw: Option<&str>)
        ensures
            final(self)@ == with_api_override(old(self)@, str_opt_view(raw)),
    {
        if let Some(r) = raw {
            let apis = parse_urls(r);
            self.get_base_mut().set_custom_nym_apis(apis);
        }
    }

    /// Binds the configuration to the gateway that registration returned, with cover traffic off.
    pub fn bind_gateway(&mut self, gateway: GatewayEndpoint)
        ensures
            final(self)@ == bound_to_gateway(old(self)@, gateway@),
    {
        self.get_base_mut().set_gateway_endpoint(gateway);
        self.get_base_mut().set_no_cover_traffic();
    }

    /// A field-by-field copy.
    pub fn duplicate(&self) -> (r: Config)
        ensures
            r@ == self@,
    {
        Config { base: self.base.duplicate(), provider_mix_address: self.provider_mix_address.clone() }
    }
}

} // verus!
