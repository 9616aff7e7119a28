//! The settings of one network of a container.

use crate::additionals::network::ip_am_config::{IPAMConfig, IPAMConfigModel};
use crate::dict::{put, Dict};
use vstd::prelude::*;

verus! {

/// Accumulates the fields of a [`Network`].
#[derive(Debug)]
pub struct NetworkBuilder {
    pub ip_am_config: Option<IPAMConfig>,
    pub links: Vec<String>,
    pub aliases: Vec<String>,
    pub network_id: Option<String>,
    pub endpoint_id: Option<String>,
    pub gateway: Option<String>,
    pub ip_address: Option<String>,
    pub ip_prefix_len: Option<i32>,
    pub ipv6_gateway: Option<String>,
    pub global_ipv6_address: Option<String>,
    pub global_ipv6_prefix_len: Option<i64>,
    pub mac_address: Option<String>,
    pub driver_opts: Dict<String>,
}

/// What a [`NetworkBuilder`] holds.
pub struct NetworkBuilderModel {
    pub ip_am_config: Option<IPAMConfigModel>,
    pub links: Seq<Seq<char>>,
    pub aliases: Seq<Seq<char>>,
    pub network_id: Option<Seq<char>>,
    pub endpoint_id: Option<Seq<char>>,
    pub gateway: Option<Seq<char>>,
    pub ip_address: Option<Seq<char>>,
    pub ip_prefix_len: Option<i32>,
    pub ipv6_gateway: Option<Seq<char>>,
    pub global_ipv6_address: Option<Seq<char>>,
    pub global_ipv6_prefix_len: Option<i64>,
    pub mac_address: Option<Seq<char>>,
    pub driver_opts: Seq<(Seq<char>, Seq<char>)>,
}

impl View for NetworkBuilder {
    type V = NetworkBuilderModel;

    open spec fn view(&self) -> NetworkBuilderModel {
        NetworkBuilderModel {
            ip_am_config: self.ip_am_config.deep_view(),
            links: self.links.deep_view(),
            aliases: self.aliases.deep_view(),
            network_id: self.network_id.deep_view(),
            endpoint_id: self.endpoint_id.deep_view(),
            gateway: self.gateway.deep_view(),
            ip_address: self.ip_address.deep_view(),
            ip_prefix_len: self.ip_prefix_len,
            ipv6_gateway: self.ipv6_gateway.deep_view(),
            global_ipv6_address: self.global_ipv6_address.deep_view(),
            global_ipv6_prefix_len: self.global_ipv6_prefix_len,
            mac_address: self.mac_address.deep_view(),
            driver_opts: self.driver_opts.deep_view(),
        }
    }
}

impl DeepView for NetworkBuilder {
    type V = NetworkBuilderModel;

    open spec fn deep_view(&self) -> NetworkBuilderModel {
        self@
    }
}

/// The settings of one network of a container.
#[derive(Debug)]
pub struct Network {
    pub ip_am_config: Option<IPAMConfig>,
    pub links: Option<Vec<String>>,
    pub aliases: Option<Vec<String>>,
    pub network_id: String,
    pub endpoint_id: String,
    pub gateway: String,
    pub ip_address: String,
    pub ip_prefix_len: i32,
    pub ipv6_gateway: String,
    pub global_ipv6_address: String,
    pub global_ipv6_prefix_len: i64,
    pub mac_address: String,
    pub driver_opts: Option<Dict<String>>,
}

/// What a [`Network`] holds.
pub struct NetworkModel {
    pub ip_am_config: Option<IPAMConfigModel>,
    pub links: Option<Seq<Seq<char>>>,
    pub aliases: Option<Seq<Seq<char>>>,
    pub network_id: Seq<char>,
    pub endpoint_id: Seq<char>,
    pub gateway: Seq<char>,
    pub ip_address: Seq<char>,
    pub ip_prefix_len: i32,
    pub ipv6_gateway: Seq<char>,
    pub global_ipv6_address: Seq<char>,
    pub global_ipv6_prefix_len: i64,
    pub mac_address: Seq<char>,
    pub driver_opts: Option<Seq<(Seq<char>, Seq<char>)>>,
}

impl View for Network {
    type V = NetworkModel;

    open spec fn view(&self) -> NetworkModel {
        NetworkModel {
            ip_am_config: self.ip_am_config.deep_view(),
            links: self.links.deep_view(),
            aliases: self.aliases.deep_view(),
            network_id: self.network_id.deep_view(),
            endpoint_id: self.endpoint_id.deep_view(),
            gateway: self.gateway.deep_view(),
            ip_address: self.ip_address.deep_view(),
            ip_prefix_len: self.ip_prefix_len,
            ipv6_gateway: self.ipv6_gateway.deep_view(),
            global_ipv6_address: self.global_ipv6_address.deep_view(),
            global_ipv6_prefix_len: self.global_ipv6_prefix_len,
            mac_address: self.mac_address.deep_view(),
            driver_opts: self.driver_opts.deep_view(),
        }
    }
}

impl DeepView for Network {
    type V = NetworkModel;

    open spec fn deep_view(&self) -> NetworkModel {
        self@
    }
}

impl Clone for Network {
    fn clone(&self) -> (res: Self)
        ensures
            res@ == self@,
    {
        let ip_am_config = self.ip_am_config.clone();
        assert(ip_am_config.deep_view() =~= self.ip_am_config.deep_view());
        let links = self.links.clone();
        assert(links.deep_view() =~= self.links.deep_view());
        let aliases = self.aliases.clone();
        assert(aliases.deep_view() =~= self.aliases.deep_view());
        let network_id = self.network_id.clone();
        let endpoint_id = self.endpoint_id.clone();
        let gateway = self.gateway.clone();
        let ip_address = self.ip_address.clone();
        let ipv6_gateway = self.ipv6_gateway.clone();
        let global_ipv6_address = self.global_ipv6_address.clone();
        let mac_address = self.mac_address.clone();
        let driver_opts = self.driver_opts.clone();
        assert(driver_opts.deep_view() =~= self.driver_opts.deep_view());
        Network {
            ip_am_config,
            links,
            aliases,
            network_id,
            endpoint_id,
            gateway,
            ip_address,
            ip_prefix_len: self.ip_prefix_len,
            ipv6_gateway,
            global_ipv6_address,
            global_ipv6_prefix_len: self.global_ipv6_prefix_len,
            mac_address,
            driver_opts,
        }
    }
}

/// The text of an optional text: empty where there is none.
pub open spec fn text_or_empty(o: Option<Seq<char>>) -> Seq<char> {
    match o {
        Some(s) => s,
        None => Seq::empty(),
    }
}

fn string_or_empty(o: Option<String>) -> (s: String)
    ensures
        s@ == text_or_empty(o.deep_view()),
{
    match o {
        Some(s) => s,
        None => String::new(),
    }
}

impl NetworkBuilder {
    /// A builder with nothing set.
    pub fn new() -> (b: Self)
        ensures
            b@ == (NetworkBuilderModel {
                ip_am_config: None,
                links: Seq::empty(),
                aliases: Seq::empty(),
                network_id: None,
                endpoint_id: None,
                gateway: None,
                ip_address: None,
                ip_prefix_len: None,
                ipv6_gateway: None,
                global_ipv6_address: None,
                global_ipv6_prefix_len: None,
                mac_address: None,
                driver_opts: Seq::empty(),
            }),
    {
        let b = NetworkBuilder {
            ip_am_config: None,
            links: Vec::new(),
            aliases: Vec::new(),
            network_id: None,
            endpoint_id: None,
            gateway: None,
            ip_address: None,
            ip_prefix_len: None,
            ipv6_gateway: None,
            global_ipv6_address: None,
            global_ipv6_prefix_len: None,
            mac_address: None,
            driver_opts: Dict::new(),
        };
        assert(b.links.deep_view() =~= Seq::<Seq<char>>::empty());
        assert(b.aliases.deep_view() =~= Seq::<Seq<char>>::empty());
        assert(b.driver_opts.deep_view() =~= Seq::<(Seq<char>, Seq<char>)>::empty());
        b
    }

    /// Sets the address settings.
    pub fn ip_am_config(self, cfg: Option<IPAMConfig>) -> (ret: Self)
        ensures
            ret@ == (NetworkBuilderModel { ip_am_config: cfg.deep_view(), ..self@ }),
    {
        let mut ret = self;
        ret.ip_am_config = cfg;
        ret
    }

    /// Appends a link.
    pub fn add_link(self, link: String) -> (ret: Self)
        ensures
            ret@ == (NetworkBuilderModel { links: self@.links.push(link@), ..self@ }),
    {
        let mut ret = self;
        ret.links.push(link);
        assert(ret.links.deep_view() =~= self@.links.push(link@));
        ret
    }

    /// Appends an alias.
    pub fn add_alias(self, alias: String) -> (ret: Self)
        ensures
            ret@ == (NetworkBuilderModel { aliases: self@.aliases.push(alias@), ..self@ }),
    {
        let mut ret = self;
        ret.aliases.push(alias);
        assert(ret.aliases.deep_view() =~= self@.aliases.push(alias@));
        ret
    }

    /// Sets the id of the network.
    pub fn network_id(self, id: Option<String>) -> (ret: Self)
        ensures
            ret@ == (NetworkBuilderModel { network_id: id.deep_view(), ..self@ }),
    {
        let mut ret = self;
        ret.network_id = id;
        ret
    }

    /// Sets the id of the endpoint.
    pub fn endpoint_id(self, id: Option<String>) -> (ret: Self)
        ensures
            ret@ == (NetworkBuilderModel { endpoint_id: id.deep_view(), ..self@ }),
    {
        let mut ret = self;
        ret.endpoint_id = id;
        ret
    }

    /// Sets the gateway.
    pub fn gateway(self, gateway: Option<String>) -> (ret: Self)
        ensures
            ret@ == (NetworkBuilderModel { gateway: gateway.deep_view(), ..self@ }),
    {
        let mut ret = self;
        ret.gateway = gateway;
        ret
    }

    /// Sets the IPv4 address.
    pub fn ip_address(self, address: Option<String>) -> (ret: Self)
        ensures
            ret@ == (NetworkBuilderModel { ip_address: address.deep_view(), ..self@ }),
    {
        let mut ret = self;
        ret.ip_address = address;
        ret
    }

    /// Sets the length of the IPv4 prefix.
    pub fn ip_prefix_len(self, len: Option<i32>) -> (ret: Self)
        ensures
            ret@ == (NetworkBuilderModel { ip_prefix_len: len, ..self@ }),
    {
        let mut ret = self;
        ret.ip_prefix_len = len;
        ret
    }

    /// Sets the IPv6 gateway.
    pub fn ipv6_gateway(self, gateway: Option<String>) -> (ret: Self)
        ensures
            ret@ == (NetworkBuilderModel { ipv6_gateway: gateway.deep_view(), ..self@ }),
    {
        let mut ret = self;
        ret.ipv6_gateway = gateway;
        ret
    }

    /// Sets the global IPv6 address.
    pub fn global_ipv6_address(self, address: Option<String>) -> (ret: Self)
        ensures
            ret@ == (NetworkBuilderModel { global_ipv6_address: address.deep_view(), ..self@ }),
    {
        let mut ret = self;
        ret.global_ipv6_address = address;
        ret
    }

    /// Sets the length of the global IPv6 prefix.
    pub fn global_ipv6_prefix_len(self, len: Option<i64>) -> (ret: Self)
        ensures
            ret@ == (NetworkBuilderModel { global_ipv6_prefix_len: len, ..self@ }),
    {
        let mut ret = self;
        ret.global_ipv6_prefix_len = len;
        ret
    }

    /// Sets the MAC address.
    pub fn mac_address(self, mac_address: Option<String>) -> (ret: Self)
        ensures
            ret@ == (NetworkBuilderModel { mac_address: mac_address.deep_view(), ..self@ }),
    {
        let mut ret = self;
        ret.mac_address = mac_address;
        ret
    }

    /// Sets the driver option `key` to `value`.
    pub fn add_driver_opt(self, key: String, value: String) -> (ret: Self)
        ensures
            ret@ == (NetworkBuilderModel {
                driver_opts: put(self@.driver_opts, key@, value@),
                ..self@
            }),
    {
        let mut ret = self;
        ret.driver_opts.set(key.as_str(), value);
        ret
    }

    /// The settings with the fields set so far: texts that were not set are
    /// empty, numbers that were not set are 0.
    pub fn build(self) -> (res: Network)
        ensures
            res@ == (NetworkModel {
                ip_am_config: self@.ip_am_config,
                links: Some(self@.links),
                aliases: Some(self@.aliases),
                network_id: text_or_empty(self@.network_id),
                endpoint_id: text_or_empty(self@.endpoint_id),
                gateway: text_or_empty(self@.gateway),
                ip_address: text_or_empty(self@.ip_address),
                ip_prefix_len: match self@.ip_prefix_len {
                    Some(n) => n,
                    None => 0,
                },
                ipv6_gateway: text_or_empty(self@.ipv6_gateway),
                global_ipv6_address: text_or_empty(self@.global_ipv6_address),
                global_ipv6_prefix_len: match self@.global_ipv6_prefix_len {
                    Some(n) => n,
                    None => 0,
                },
                mac_address: text_or_empty(self@.mac_address),
                driver_opts: Some(self@.driver_opts),
            }),
    {
        Network {
            ip_am_config: self.ip_am_config,
            links: Some(self.links),
            aliases: Some(self.aliases),
            network_id: string_or_empty(self.network_id),
            endpoint_id: string_or_empty(self.endpoint_id),
            gateway: string_or_empty(self.gateway),
            ip_address: string_or_empty(self.ip_address),
            ip_prefix_len: match self.ip_prefix_len {
                Some(n) => n,
                None => 0,
            },
            ipv6_gateway: string_or_empty(self.ipv6_gateway),
            global_ipv6_address: string_or_empty(self.global_ipv6_address),
            global_ipv6_prefix_len: match self.global_ipv6_prefix_len {
                Some(n) => n,
                None => 0,
            },
            mac_address: string_or_empty(self.mac_address),
            driver_opts: Some(self.driver_opts),
        }
    }
}

} // verus!
