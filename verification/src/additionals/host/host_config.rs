//! The host-side settings of a container.

use crate::dict::{has_key, key_index, put, Dict};
use vstd::prelude::*;

verus! {

/// A host address that a container port is bound to.
#[derive(Debug)]
pub struct PortBinding {
    pub host_ip: Option<String>,
    pub host_port: String,
}

/// What a [`PortBinding`] holds.
pub struct PortBindingModel {
    pub host_ip: Option<Seq<char>>,
    pub host_port: Seq<char>,
}

impl View for PortBinding {
    type V = PortBindingModel;

    open spec fn view(&self) -> PortBindingModel {
        PortBindingModel {
            host_ip: self.host_ip.deep_view(),
            host_port: self.host_port.deep_view(),
        }
    }
}

impl DeepView for PortBinding {
    type V = PortBindingModel;

    open spec fn deep_view(&self) -> PortBindingModel {
        self@
    }
}

impl Clone for PortBinding {
    fn clone(&self) -> (res: Self)
        ensures
            res@ == self@,
    {
        let host_ip = self.host_ip.clone();
        let host_port = self.host_port.clone();
        PortBinding {
            host_ip,
            host_port,
        }
    }
}

/// Accumulates the fields of a [`HostConfig`].
#[derive(Debug)]
pub struct HostConfigBuilder {
    pub binds: Vec<String>,
    pub port_bindings: Dict<Vec<PortBinding>>,
    pub sysctls: Dict<String>,
    pub auto_remove: Option<bool>,
}

/// What a [`HostConfigBuilder`] holds.
pub struct HostConfigBuilderModel {
    pub binds: Seq<Seq<char>>,
    pub port_bindings: Seq<(Seq<char>, Seq<PortBindingModel>)>,
    pub sysctls: Seq<(Seq<char>, Seq<char>)>,
    pub auto_remove: Option<bool>,
}

impl View for HostConfigBuilder {
    type V = HostConfigBuilderModel;

    open spec fn view(&self) -> HostConfigBuilderModel {
        HostConfigBuilderModel {
            binds: self.binds.deep_view(),
            port_bindings: self.port_bindings.deep_view(),
            sysctls: self.sysctls.deep_view(),
            auto_remove: self.auto_remove,
        }
    }
}

impl DeepView for HostConfigBuilder {
    type V = HostConfigBuilderModel;

    open spec fn deep_view(&self) -> HostConfigBuilderModel {
        self@
    }
}

/// The host-side settings of a container.
#[derive(Debug)]
pub struct HostConfig {
    pub binds: Vec<String>,
    pub port_bindings: Dict<Vec<PortBinding>>,
    pub sysctls: Dict<String>,
    pub auto_remove: bool,
}

/// What a [`HostConfig`] holds.
pub struct HostConfigModel {
    pub binds: Seq<Seq<char>>,
    pub port_bindings: Seq<(Seq<char>, Seq<PortBindingModel>)>,
    pub sysctls: Seq<(Seq<char>, Seq<char>)>,
    pub auto_remove: bool,
}

impl View for HostConfig {
    type V = HostConfigModel;

    open spec fn view(&self) -> HostConfigModel {
        HostConfigModel {
            binds: self.binds.deep_view(),
            port_bindings: self.port_bindings.deep_view(),
            sysctls: self.sysctls.deep_view(),
            auto_remove: self.auto_remove,
        }
    }
}

impl DeepView for HostConfig {
    type V = HostConfigModel;

    open spec fn deep_view(&self) -> HostConfigModel {
        self@
    }
}

impl Clone for HostConfig {
    fn clone(&self) -> (res: Self)
        ensures
            res@ == self@,
    {
        let binds = self.binds.clone();
        assert(binds.deep_view() =~= self.binds.deep_view());
        let port_bindings = copy_port_bindings(&self.port_bindings);
        let sysctls = self.sysctls.clone();
        assert(sysctls.deep_view() =~= self.sysctls.deep_view());
        HostConfig { binds, port_bindings, sysctls, auto_remove: self.auto_remove }
    }
}

/// The text of one bind: `host_path:container_path:ro` for a read-only
/// bind, `host_path:container_path:rw` for any other.
pub open spec fn bind_text(host_path: Seq<char>, container_path: Seq<char>, read_only: bool) -> Seq<
    char,
> {
    host_path + ":"@ + container_path + ":"@ + if read_only {
        "ro"@
    } else {
        "rw"@
    }
}

/// The bindings of the port `port`: none where the port is not bound.
pub open spec fn bindings_of(
    all: Seq<(Seq<char>, Seq<PortBindingModel>)>,
    port: Seq<char>,
) -> Seq<PortBindingModel> {
    if has_key(all, port) {
        all[key_index(all, port)].1
    } else {
        Seq::empty()
    }
}

/// The port bindings after `binding` is added to those of `port`.
pub open spec fn bound(
    all: Seq<(Seq<char>, Seq<PortBindingModel>)>,
    port: Seq<char>,
    binding: PortBindingModel,
) -> Seq<(Seq<char>, Seq<PortBindingModel>)> {
    put(all, port, bindings_of(all, port).push(binding))
}

/// A copy of a list of bindings.
pub fn copy_bindings(list: &Vec<PortBinding>) -> (res: Vec<PortBinding>)
    ensures
        res.deep_view() == list.deep_view(),
{
    let mut res: Vec<PortBinding> = Vec::new();
    let mut i: usize = 0;
    while i < list.len()
        invariant
            i <= list@.len(),
            res@.len() == i,
            forall|j: int| 0 <= j < i ==> (#[trigger] res@[j])@ == list@[j]@,
        decreases list@.len() - i,
    {
        res.push(list[i].clone());
        i += 1;
    }
    assert(res.deep_view() =~= list.deep_view());
    res
}

/// A copy of the bindings of every port.
pub fn copy_port_bindings(all: &Dict<Vec<PortBinding>>) -> (res: Dict<Vec<PortBinding>>)
    ensures
        res.deep_view() == all.deep_view(),
{
    let mut res: Dict<Vec<PortBinding>> = Dict::new();
    let mut i: usize = 0;
    assert(res.deep_view() =~= all.deep_view().take(0));
    while i < all.len()
        invariant
            i <= all@.len(),
            res.deep_view() == all.deep_view().take(i as int),
        decreases all@.len() - i,
    {
        let list = copy_bindings(all.value_at(i));
        proof {
            use_type_invariant(all);
            all.lemma_wf();
            let done = all.deep_view().take(i as int);
            let key = all@[i as int].0;
            assert(!has_key(done, key)) by {
                if has_key(done, key) {
                    let k = key_index(done, key);
                    assert(done[k].0 == key);
                    assert(all@[k].0 != all@[i as int].0);
                }
            }
            assert(done.push((key, list.deep_view())) =~= all.deep_view().take(i + 1));
        }
        res.set(all.key_at(i).as_str(), list);
        i += 1;
    }
    assert(all.deep_view().take(all@.len() as int) =~= all.deep_view());
    res
}

impl HostConfigBuilder {
    /// A builder with no bind, no port binding and no kernel parameter.
    pub fn new() -> (b: Self)
        ensures
            b@ == (HostConfigBuilderModel {
                binds: Seq::empty(),
                port_bindings: Seq::empty(),
                sysctls: Seq::empty(),
                auto_remove: None,
            }),
    {
        let b = HostConfigBuilder {
            binds: Vec::new(),
            port_bindings: Dict::new(),
            sysctls: Dict::new(),
            auto_remove: None,
        };
        assert(b.binds.deep_view() =~= Seq::<Seq<char>>::empty());
        assert(b.port_bindings.deep_view() =~= Seq::<(Seq<char>, Seq<PortBindingModel>)>::empty());
        assert(b.sysctls.deep_view() =~= Seq::<(Seq<char>, Seq<char>)>::empty());
        b
    }

    /// Binds the container port `container_port` to one more host address.
    /// The bindings of a port keep the order in which they were added.
    pub fn bind_port(
        &mut self,
        container_port: String,
        host_ip: Option<String>,
        host_port: String,
    ) -> (ret: &mut Self)
        ensures
            ret@ == (HostConfigBuilderModel {
                port_bindings: bound(
                    old(self)@.port_bindings,
                    container_port@,
                    PortBindingModel { host_ip: host_ip.deep_view(), host_port: host_port@ },
                ),
                ..old(self)@
            }),
            *final(self) == *final(ret),
    {
        let binding = PortBinding { host_ip, host_port };
        let ghost before = self.port_bindings@;
        proof {
            use_type_invariant(&self.port_bindings);
            self.port_bindings.lemma_wf();
        }
        let mut list: Vec<PortBinding> = match self.port_bindings.get(container_port.as_str()) {
            Some(bindings) => copy_bindings(bindings),
            None => Vec::new(),
        };
        let ghost earlier = list.deep_view();
        list.push(binding);
        assert(list.deep_view() =~= earlier.push(binding@));
        assert(earlier =~= bindings_of(old(self)@.port_bindings, container_port@)) by {
            if has_key(before, container_port@) {
                let k = key_index(before, container_port@);
                let m = key_index(old(self)@.port_bindings, container_port@);
                assert(old(self)@.port_bindings[k].0 == container_port@);
                assert(old(self)@.port_bindings[m].0 == container_port@);
                assert(before[m].0 == container_port@);
                if k < m {
                    assert(before[k].0 != before[m].0);
                } else if m < k {
                    assert(before[m].0 != before[k].0);
                }
            } else {
                if has_key(old(self)@.port_bindings, container_port@) {
                    let m = key_index(old(self)@.port_bindings, container_port@);
                    assert(before[m].0 == container_port@);
                }
            }
        }
        self.port_bindings.set(container_port.as_str(), list);
        self
    }

    /// Binds the host path `host_path` at `container_path`, read-only or
    /// read-write: appends `host_path:container_path:ro` or `...:rw`.
    pub fn mount(&mut self, host_path: String, container_path: String, read_only: bool) -> (ret:
        &mut Self)
        ensures
            ret@ == (HostConfigBuilderModel {
                binds: old(self)@.binds.push(bind_text(host_path@, container_path@, read_only)),
                ..old(self)@
            }),
            *final(self) == *final(ret),
    {
        let mut bind = host_path;
        bind.append(":");
        bind.append(container_path.as_str());
        bind.append(":");
        if read_only {
            bind.append("ro");
        } else {
            bind.append("rw");
        }
        self.binds.push(bind);
        assert(self.binds.deep_view() =~= old(self).binds.deep_view().push(
            bind_text(host_path@, container_path@, read_only),
        ));
        self
    }

    /// Sets the kernel parameter `k` to `value`.
    pub fn sysctl(&mut self, k: String, value: String) -> (ret: &mut Self)
        ensures
            ret@ == (HostConfigBuilderModel {
                sysctls: put(old(self)@.sysctls, k@, value@),
                ..old(self)@
            }),
            *final(self) == *final(ret),
    {
        self.sysctls.set(k.as_str(), value);
        self
    }

    /// Sets whether the container is removed when it exits.
    pub fn auto_remove(&mut self, b: bool) -> (ret: &mut Self)
        ensures
            ret@ == (HostConfigBuilderModel { auto_remove: Some(b), ..old(self)@ }),
            *final(self) == *final(ret),
    {
        self.auto_remove = Some(b);
        self
    }

    /// The settings with the fields set so far; the container is not
    /// removed on exit unless that was asked for.
    pub fn build(&self) -> (res: HostConfig)
        ensures
            res@ == (HostConfigModel {
                binds: self@.binds,
                port_bindings: self@.port_bindings,
                sysctls: self@.sysctls,
                auto_remove: self@.auto_remove == Some(true),
            }),
    {
        let binds = self.binds.clone();
        assert(binds.deep_view() =~= self.binds.deep_view());
        let port_bindings = copy_port_bindings(&self.port_bindings);
        let sysctls = self.sysctls.clone();
        assert(sysctls.deep_view() =~= self.sysctls.deep_view());
        HostConfig {
            binds,
            port_bindings,
            sysctls,
            auto_remove: match self.auto_remove {
                Some(b) => b,
                None => false,
            },
        }
    }
}

} // verus!
