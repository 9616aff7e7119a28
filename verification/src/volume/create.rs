//! The request that creates a volume.

use crate::dict::{put, Dict};
use vstd::prelude::*;

verus! {

/// Accumulates the fields of a [`VolumeCreator`].
#[derive(Debug)]
pub struct VolumeCreatorBuilder {
    pub name: String,
    pub driver: String,
    pub driver_opts: Dict<String>,
    pub labels: Dict<String>,
}

impl View for VolumeCreatorBuilder {
    type V = VolumeCreatorModel;

    open spec fn view(&self) -> VolumeCreatorModel {
        VolumeCreatorModel {
            name: self.name.deep_view(),
            driver: self.driver.deep_view(),
            driver_opts: self.driver_opts.deep_view(),
            labels: self.labels.deep_view(),
        }
    }
}

impl DeepView for VolumeCreatorBuilder {
    type V = VolumeCreatorModel;

    open spec fn deep_view(&self) -> VolumeCreatorModel {
        self@
    }
}

/// The request that creates a volume.
#[derive(Debug)]
pub struct VolumeCreator {
    pub name: String,
    pub driver: String,
    pub driver_opts: Dict<String>,
    pub labels: Dict<String>,
}

/// What a [`VolumeCreator`] or its builder holds.
pub struct VolumeCreatorModel {
    pub name: Seq<char>,
    pub driver: Seq<char>,
    pub driver_opts: Seq<(Seq<char>, Seq<char>)>,
    pub labels: Seq<(Seq<char>, Seq<char>)>,
}

impl View for VolumeCreator {
    type V = VolumeCreatorModel;

    open spec fn view(&self) -> VolumeCreatorModel {
        VolumeCreatorModel {
            name: self.name.deep_view(),
            driver: self.driver.deep_view(),
            driver_opts: self.driver_opts.deep_view(),
            labels: self.labels.deep_view(),
        }
    }
}

impl DeepView for VolumeCreator {
    type V = VolumeCreatorModel;

    open spec fn deep_view(&self) -> VolumeCreatorModel {
        self@
    }
}

impl VolumeCreator {
    /// A builder with nothing set.
    pub fn builder() -> (b: VolumeCreatorBuilder)
        ensures
            b@ == (VolumeCreatorModel {
                name: Seq::empty(),
                driver: Seq::empty(),
                driver_opts: Seq::empty(),
                labels: Seq::empty(),
            }),
    {
        VolumeCreatorBuilder::new()
    }
}

impl VolumeCreatorBuilder {
    /// A builder with nothing set.
    pub fn new() -> (b: Self)
        ensures
            b@ == (VolumeCreatorModel {
                name: Seq::empty(),
                driver: Seq::empty(),
                driver_opts: Seq::empty(),
                labels: Seq::empty(),
            }),
    {
        let b = VolumeCreatorBuilder {
            name: String::new(),
            driver: String::new(),
            driver_opts: Dict::new(),
            labels: Dict::new(),
        };
        assert(b.driver_opts.deep_view() =~= Seq::<(Seq<char>, Seq<char>)>::empty());
        assert(b.labels.deep_view() =~= Seq::<(Seq<char>, Seq<char>)>::empty());
        b
    }

    /// Sets the name of the volume.
    pub fn name(&mut self, name: &str) -> (ret: &mut Self)
        ensures
            ret@ == (VolumeCreatorModel { name: name@, ..old(self)@ }),
            *final(self) == *final(ret),
    {
        self.name = name.to_owned();
        self
    }

    /// Sets the name of the volume driver.
    pub fn driver(&mut self, driver: &str) -> (ret: &mut Self)
        ensures
            ret@ == (VolumeCreatorModel { driver: driver@, ..old(self)@ }),
            *final(self) == *final(ret),
    {
        self.driver = driver.to_owned();
        self
    }

    /// Sets the driver option `key` to `value`.
    pub fn driver_opt(&mut self, key: &str, value: &str) -> (ret: &mut Self)
        ensures
            ret@ == (VolumeCreatorModel { driver_opts: put(old(self)@.driver_opts, key@, value@), ..old(self)@ }),
            *final(self) == *final(ret),
    {
        self.driver_opts.set(key, value.to_owned());
        self
    }

    /// Sets the label `key` to `value`.
    pub fn label(&mut self, key: &str, value: &str) -> (ret: &mut Self)
        ensures
            ret@ == (VolumeCreatorModel { labels: put(old(self)@.labels, key@, value@), ..old(self)@ }),
            *final(self) == *final(ret),
    {
        self.labels.set(key, value.to_owned());
        self
    }

    /// The request with the fields set so far.
    pub fn build(&self) -> (res: VolumeCreator)
        ensures
            res@ == self@,
    {
        let name = self.name.clone();
        let driver = self.driver.clone();
        let driver_opts = self.driver_opts.clone();
        assert(driver_opts.deep_view() =~= self.driver_opts.deep_view());
        let labels = self.labels.clone();
        assert(labels.deep_view() =~= self.labels.deep_view());
        VolumeCreator {
            name,
            driver,
            driver_opts,
            labels,
        }
    }
}

} // verus!
