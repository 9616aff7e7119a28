//! The networks of a container.

use crate::additionals::network::network::{Network, NetworkModel};
use crate::dict::{put, Dict};
use vstd::prelude::*;

verus! {

/// Accumulates the networks of a [`NetworkSettings`].
#[derive(Debug)]
pub struct NetworkSettingsBuilder {
    pub networks: Dict<Network>,
}

impl View for NetworkSettingsBuilder {
    type V = NetworkSettingsModel;

    open spec fn view(&self) -> NetworkSettingsModel {
        NetworkSettingsModel {
            networks: self.networks.deep_view(),
        }
    }
}

impl DeepView for NetworkSettingsBuilder {
    type V = NetworkSettingsModel;

    open spec fn deep_view(&self) -> NetworkSettingsModel {
        self@
    }
}

/// The networks of a container, by name.
#[derive(Debug)]
pub struct NetworkSettings {
    pub networks: Dict<Network>,
}

/// What a [`NetworkSettings`] or its builder holds.
pub struct NetworkSettingsModel {
    pub networks: Seq<(Seq<char>, NetworkModel)>,
}

impl View for NetworkSettings {
    type V = NetworkSettingsModel;

    open spec fn view(&self) -> NetworkSettingsModel {
        NetworkSettingsModel {
            networks: self.networks.deep_view(),
        }
    }
}

impl DeepView for NetworkSettings {
    type V = NetworkSettingsModel;

    open spec fn deep_view(&self) -> NetworkSettingsModel {
        self@
    }
}

/// A copy of the networks.
pub fn copy_networks(all: &Dict<Network>) -> (res: Dict<Network>)
    ensures
        res.deep_view() == all.deep_view(),
{
    let res = all.clone();
    assert(res.deep_view() =~= all.deep_view());
    res
}

impl Clone for NetworkSettings {
    fn clone(&self) -> (res: Self)
        ensures
            res@ == self@,
    {
        NetworkSettings { networks: copy_networks(&self.networks) }
    }
}

impl NetworkSettingsBuilder {
    /// A builder with no network.
    pub fn new() -> (b: Self)
        ensures
            b@ == (NetworkSettingsModel {
                networks: Seq::empty(),
            }),
    {
        let b = NetworkSettingsBuilder {
            networks: Dict::new(),
        };
        assert(b.networks.deep_view() =~= Seq::<(Seq<char>, NetworkModel)>::empty());
        b
    }

    /// Sets the settings of the network `name` to a copy of `config`.
    pub fn add_config(self, name: String, config: &Network) -> (ret: Self)
        ensures
            ret@ == (NetworkSettingsModel { networks: put(self@.networks, name@, config@) }),
    {
        let mut ret = self;
        ret.networks.set(name.as_str(), config.clone());
        ret
    }

    /// The settings with the networks set so far.
    pub fn build(self) -> (res: NetworkSettings)
        ensures
            res@ == self@,
    {
        NetworkSettings {
            networks: self.networks,
        }
    }
}

} // verus!
