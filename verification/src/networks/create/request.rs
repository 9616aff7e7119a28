//! The request that creates a network.

use crate::dict::{put, Dict};
use vstd::prelude::*;

verus! {

/// Accumulates the fields of an [`IPAM`].
#[derive(Debug)]
pub struct IPAMBuilder {
    pub driver: String,
    pub config: Vec<Dict<String>>,
    pub options: Dict<String>,
}

impl View for IPAMBuilder {
    type V = IPAMModel;

    open spec fn view(&self) -> IPAMModel {
        IPAMModel {
            driver: self.driver.deep_view(),
            config: self.config.deep_view(),
            options: self.options.deep_view(),
        }
    }
}

impl DeepView for IPAMBuilder {
    type V = IPAMModel;

    open spec fn deep_view(&self) -> IPAMModel {
        self@
    }
}

/// The address management of a network.
#[derive(Debug)]
pub struct IPAM {
    pub driver: String,
    pub config: Vec<Dict<String>>,
    pub options: Dict<String>,
}

/// What an [`IPAM`] or its builder holds.
pub struct IPAMModel {
    pub driver: Seq<char>,
    pub config: Seq<Seq<(Seq<char>, Seq<char>)>>,
    pub options: Seq<(Seq<char>, Seq<char>)>,
}

impl View for IPAM {
    type V = IPAMModel;

    open spec fn view(&self) -> IPAMModel {
        IPAMModel {
            driver: self.driver.deep_view(),
            config: self.config.deep_view(),
            options: self.options.deep_view(),
        }
    }
}

impl DeepView for IPAM {
    type V = IPAMModel;

    open spec fn deep_view(&self) -> IPAMModel {
        self@
    }
}

/// Accumulates the fields of a [`Request`].
#[derive(Debug)]
pub struct RequestBuilder {
    pub name: String,
    pub check_duplicate: bool,
    pub driver: String,
    pub internal: bool,
    pub attachable: bool,
    pub ingress: bool,
    pub ip_am: IPAM,
    pub enable_ipv6: bool,
    pub options: Dict<String>,
    pub labels: Dict<String>,
}

impl View for RequestBuilder {
    type V = RequestModel;

    open spec fn view(&self) -> RequestModel {
        RequestModel {
            name: self.name.deep_view(),
            check_duplicate: self.check_duplicate,
            driver: self.driver.deep_view(),
            internal: self.internal,
            attachable: self.attachable,
            ingress: self.ingress,
            ip_am: self.ip_am.deep_view(),
            enable_ipv6: self.enable_ipv6,
            options: self.options.deep_view(),
            labels: self.labels.deep_view(),
        }
    }
}

impl DeepView for RequestBuilder {
    type V = RequestModel;

    open spec fn deep_view(&self) -> RequestModel {
        self@
    }
}

/// The request that creates a network.
#[derive(Debug)]
pub struct Request {
    pub name: String,
    pub check_duplicate: bool,
    pub driver: String,
    pub internal: bool,
    pub attachable: bool,
    pub ingress: bool,
    pub ip_am: IPAM,
    pub enable_ipv6: bool,
    pub options: Dict<String>,
    pub labels: Dict<String>,
}

/// What a [`Request`] or its builder holds.
pub struct RequestModel {
    pub name: Seq<char>,
    pub check_duplicate: bool,
    pub driver: Seq<char>,
    pub internal: bool,
    pub attachable: bool,
    pub ingress: bool,
    pub ip_am: IPAMModel,
    pub enable_ipv6: bool,
    pub options: Seq<(Seq<char>, Seq<char>)>,
    pub labels: Seq<(Seq<char>, Seq<char>)>,
}

impl View for Request {
    type V = RequestModel;

    open spec fn view(&self) -> RequestModel {
        RequestModel {
            name: self.name.deep_view(),
            check_duplicate: self.check_duplicate,
            driver: self.driver.deep_view(),
            internal: self.internal,
            attachable: self.attachable,
            ingress: self.ingress,
            ip_am: self.ip_am.deep_view(),
            enable_ipv6: self.enable_ipv6,
            options: self.options.deep_view(),
            labels: self.labels.deep_view(),
        }
    }
}

impl DeepView for Request {
    type V = RequestModel;

    open spec fn deep_view(&self) -> RequestModel {
        self@
    }
}

/// A copy of a list of configurations.
pub fn copy_configs(list: &Vec<Dict<String>>) -> (res: Vec<Dict<String>>)
    ensures
        res.deep_view() == list.deep_view(),
{
    let mut res: Vec<Dict<String>> = Vec::new();
    let mut i: usize = 0;
    while i < list.len()
        invariant
            i <= list@.len(),
            res@.len() == i,
            forall|j: int| 0 <= j < i ==> (#[trigger] res@[j]).deep_view() == list@[j].deep_view(),
        decreases list@.len() - i,
    {
        let item = list[i].clone();
        assert(item.deep_view() =~= list@[i as int].deep_view());
        res.push(item);
        i += 1;
    }
    assert(res.deep_view() =~= list.deep_view());
    res
}

impl Clone for IPAM {
    fn clone(&self) -> (res: Self)
        ensures
            res@ == self@,
    {
        let options = self.options.clone();
        assert(options.deep_view() =~= self.options.deep_view());
        IPAM { driver: self.driver.clone(), config: copy_configs(&self.config), options }
    }
}

impl Default for IPAMBuilder {
    fn default() -> (b: Self)
        ensures
            b@ == (IPAMModel {
                driver: "default"@,
                config: Seq::empty(),
                options: Seq::empty(),
            }),
    {
        let b = IPAMBuilder {
            driver: "default".to_owned(),
            config: Vec::new(),
            options: Dict::new(),
        };
        assert(b.config.deep_view() =~= Seq::<Seq<(Seq<char>, Seq<char>)>>::empty());
        assert(b.options.deep_view() =~= Seq::<(Seq<char>, Seq<char>)>::empty());
        b
    }
}

impl IPAMBuilder {
    /// A builder with the driver `default`, no configuration and no option.
    pub fn new() -> (b: Self)
        ensures
            b@ == (IPAMModel {
                driver: "default"@,
                config: Seq::empty(),
                options: Seq::empty(),
            }),
    {
        let b = IPAMBuilder {
            driver: "default".to_owned(),
            config: Vec::new(),
            options: Dict::new(),
        };
        assert(b.config.deep_view() =~= Seq::<Seq<(Seq<char>, Seq<char>)>>::empty());
        assert(b.options.deep_view() =~= Seq::<(Seq<char>, Seq<char>)>::empty());
        b
    }

    /// Sets the name of the address management driver.
    pub fn driver(self, v: &str) -> (ret: Self)
        ensures
            ret@ == (IPAMModel { driver: v@, ..self@ }),
    {
        let mut ret = self;
        ret.driver = v.to_owned();
        ret
    }

    /// Appends one configuration: a subnet, a gateway and the like, by
    /// name.
    pub fn add_config(self, map: Dict<String>) -> (ret: Self)
        ensures
            ret@ == (IPAMModel { config: self@.config.push(map.deep_view()), ..self@ }),
    {
        let mut ret = self;
        ret.config.push(map);
        assert(ret.config.deep_view() =~= self@.config.push(map.deep_view()));
        ret
    }

    /// Sets the driver option `k` to `v`.
    pub fn add_option(self, k: &str, v: &str) -> (ret: Self)
        ensures
            ret@ == (IPAMModel { options: put(self@.options, k@, v@), ..self@ }),
    {
        let mut ret = self;
        ret.options.set(k, v.to_owned());
        ret
    }

    /// The address management with the fields set so far.
    pub fn build(self) -> (res: IPAM)
        ensures
            res@ == self@,
    {
        IPAM {
            driver: self.driver,
            config: self.config,
            options: self.options,
        }
    }
}

impl Default for RequestBuilder {
    fn default() -> (b: Self)
        ensures
            b@ == (RequestModel {
                name: Seq::empty(),
                check_duplicate: true,
                driver: "bridge"@,
                internal: false,
                attachable: false,
                ingress: false,
                ip_am: IPAMModel { driver: "default"@, config: Seq::empty(), options: Seq::empty() },
                enable_ipv6: false,
                options: Seq::empty(),
                labels: Seq::empty(),
            }),
    {
        let b = RequestBuilder {
            name: String::new(),
            check_duplicate: true,
            driver: "bridge".to_owned(),
            internal: false,
            attachable: false,
            ingress: false,
            ip_am: IPAMBuilder::new().build(),
            enable_ipv6: false,
            options: Dict::new(),
            labels: Dict::new(),
        };
        assert(b.options.deep_view() =~= Seq::<(Seq<char>, Seq<char>)>::empty());
        assert(b.labels.deep_view() =~= Seq::<(Seq<char>, Seq<char>)>::empty());
        b
    }
}

impl RequestBuilder {
    /// A builder for a network named `name`: a bridge network that is checked
    /// for duplicates, with default address management.
    pub fn with_name(name: &str) -> (b: Self)
        ensures
            b@ == (RequestModel {
                name: name@,
                check_duplicate: true,
                driver: "bridge"@,
                internal: false,
                attachable: false,
                ingress: false,
                ip_am: IPAMModel { driver: "default"@, config: Seq::empty(), options: Seq::empty() },
                enable_ipv6: false,
                options: Seq::empty(),
                labels: Seq::empty(),
            }),
    {
        let b = RequestBuilder {
            name: name.to_owned(),
            check_duplicate: true,
            driver: "bridge".to_owned(),
            internal: false,
            attachable: false,
            ingress: false,
            ip_am: IPAMBuilder::new().build(),
            enable_ipv6: false,
            options: Dict::new(),
            labels: Dict::new(),
        };
        assert(b.options.deep_view() =~= Seq::<(Seq<char>, Seq<char>)>::empty());
        assert(b.labels.deep_view() =~= Seq::<(Seq<char>, Seq<char>)>::empty());
        b
    }

    /// The request with the fields set so far.
    pub fn build(&self) -> (res: Request)
        ensures
            res@ == self@,
    {
        let options = self.options.clone();
        assert(options.deep_view() =~= self.options.deep_view());
        let labels = self.labels.clone();
        assert(labels.deep_view() =~= self.labels.deep_view());
        Request {
            name: self.name.clone(),
            check_duplicate: self.check_duplicate,
            driver: self.driver.clone(),
            internal: self.internal,
            attachable: self.attachable,
            ingress: self.ingress,
            ip_am: self.ip_am.clone(),
            enable_ipv6: self.enable_ipv6,
            options,
            labels,
        }
    }
}

impl Request {
    /// The target of the request: `/networks/create`.
    pub fn get_path(&self) -> (s: String)
        ensures
            s@ == "/networks/create"@,
    {
        "/networks/create".to_owned()
    }
}

} // verus!
