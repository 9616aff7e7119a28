//! The address settings of a network endpoint.

use vstd::prelude::*;

verus! {

/// Accumulates the fields of an [`IPAMConfig`].
#[derive(Debug)]
pub struct IPAMConfigBuilder {
    pub ipv4_address: String,
    pub ipv6_address: String,
    pub link_local_ips: Vec<String>,
}

impl View for IPAMConfigBuilder {
    type V = IPAMConfigModel;

    open spec fn view(&self) -> IPAMConfigModel {
        IPAMConfigModel {
            ipv4_address: self.ipv4_address.deep_view(),
            ipv6_address: self.ipv6_address.deep_view(),
            link_local_ips: self.link_local_ips.deep_view(),
        }
    }
}

impl DeepView for IPAMConfigBuilder {
    type V = IPAMConfigModel;

    open spec fn deep_view(&self) -> IPAMConfigModel {
        self@
    }
}

/// The addresses of an endpoint.
#[derive(Debug)]
pub struct IPAMConfig {
    pub ipv4_address: String,
    pub ipv6_address: String,
    pub link_local_ips: Vec<String>,
}

/// What an [`IPAMConfig`] or its builder holds.
pub struct IPAMConfigModel {
    pub ipv4_address: Seq<char>,
    pub ipv6_address: Seq<char>,
    pub link_local_ips: Seq<Seq<char>>,
}

impl View for IPAMConfig {
    type V = IPAMConfigModel;

    open spec fn view(&self) -> IPAMConfigModel {
        IPAMConfigModel {
            ipv4_address: self.ipv4_address.deep_view(),
            ipv6_address: self.ipv6_address.deep_view(),
            link_local_ips: self.link_local_ips.deep_view(),
        }
    }
}

impl DeepView for IPAMConfig {
    type V = IPAMConfigModel;

    open spec fn deep_view(&self) -> IPAMConfigModel {
        self@
    }
}

impl Clone for IPAMConfig {
    fn clone(&self) -> (res: Self)
        ensures
            res@ == self@,
    {
        let ipv4_address = self.ipv4_address.clone();
        let ipv6_address = self.ipv6_address.clone();
        let link_local_ips = self.link_local_ips.clone();
        assert(link_local_ips.deep_view() =~= self.link_local_ips.deep_view());
        IPAMConfig {
            ipv4_address,
            ipv6_address,
            link_local_ips,
        }
    }
}

impl IPAMConfigBuilder {
    /// A builder with empty addresses.
    pub fn new() -> (b: Self)
        ensures
            b@ == (IPAMConfigModel {
                ipv4_address: Seq::empty(),
                ipv6_address: Seq::empty(),
                link_local_ips: Seq::empty(),
            }),
    {
        let b = IPAMConfigBuilder {
            ipv4_address: String::new(),
            ipv6_address: String::new(),
            link_local_ips: Vec::new(),
        };
        assert(b.link_local_ips.deep_view() =~= Seq::<Seq<char>>::empty());
        b
    }

    /// Sets the IPv4 address.
    pub fn ipv4_address(self, address: String) -> (ret: Self)
        ensures
            ret@ == (IPAMConfigModel { ipv4_address: address@, ..self@ }),
    {
        let mut ret = self;
        ret.ipv4_address = address;
        ret
    }

    /// Sets the IPv6 address.
    pub fn ipv6_address(self, address: String) -> (ret: Self)
        ensures
            ret@ == (IPAMConfigModel { ipv6_address: address@, ..self@ }),
    {
        let mut ret = self;
        ret.ipv6_address = address;
        ret
    }

    /// Appends a link-local address.
    pub fn add_local_ip(self, address: String) -> (ret: Self)
        ensures
            ret@ == (IPAMConfigModel { link_local_ips: self@.link_local_ips.push(address@), ..self@ }),
    {
        let mut ret = self;
        ret.link_local_ips.push(address);
        assert(ret.link_local_ips.deep_view() =~= self@.link_local_ips.push(address@));
        ret
    }

    /// The address settings with the fields set so far.
    pub fn build(self) -> (res: IPAMConfig)
        ensures
            res@ == self@,
    {
        IPAMConfig {
            ipv4_address: self.ipv4_address,
            ipv6_address: self.ipv6_address,
            link_local_ips: self.link_local_ips,
        }
    }
}

} // verus!
