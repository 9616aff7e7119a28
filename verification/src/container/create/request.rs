//! The request that creates a container.

use crate::container::create::config::{blank_config, Config, ConfigModel};
use crate::http::url::target_text;
use crate::path::{filled_param, Target};
use vstd::prelude::*;

verus! {

/// Accumulates the fields of a [`Create`].
#[derive(Debug, Clone)]
pub struct CreateBuilder {
    pub name: String,
    pub config: Config,
}

impl View for CreateBuilder {
    type V = CreateModel;

    open spec fn view(&self) -> CreateModel {
        CreateModel {
            name: self.name.deep_view(),
            config: self.config.deep_view(),
        }
    }
}

impl DeepView for CreateBuilder {
    type V = CreateModel;

    open spec fn deep_view(&self) -> CreateModel {
        self@
    }
}

/// The request that creates a container.
#[derive(Debug)]
pub struct Create {
    pub name: String,
    pub config: Config,
}

/// What a [`Create`] or its builder holds.
pub struct CreateModel {
    pub name: Seq<char>,
    pub config: ConfigModel,
}

impl View for Create {
    type V = CreateModel;

    open spec fn view(&self) -> CreateModel {
        CreateModel {
            name: self.name.deep_view(),
            config: self.config.deep_view(),
        }
    }
}

impl DeepView for Create {
    type V = CreateModel;

    open spec fn deep_view(&self) -> CreateModel {
        self@
    }
}

impl CreateBuilder {
    /// A builder with the settings `cfg` and no name.
    pub fn with_config(cfg: Config) -> (b: Self)
        ensures
            b@ == (CreateModel { name: Seq::empty(), config: cfg@ }),
    {
        CreateBuilder { name: String::new(), config: cfg }
    }

    /// Sets the name of the container.
    pub fn name(self, v: &str) -> (ret: Self)
        ensures
            ret@ == (CreateModel { name: v@, ..self@ }),
    {
        let mut ret = self;
        ret.name = v.to_owned();
        ret
    }

    /// Sets the settings of the container.
    pub fn config(self, cfg: Config) -> (ret: Self)
        ensures
            ret@ == (CreateModel { config: cfg.deep_view(), ..self@ }),
    {
        let mut ret = self;
        ret.config = cfg;
        ret
    }

    /// The request with the fields set so far.
    pub fn build(self) -> (res: Create)
        ensures
            res@ == self@,
    {
        Create {
            name: self.name,
            config: self.config,
        }
    }
}

impl Create {
    /// A builder with default settings and no name.
    pub fn new() -> (b: CreateBuilder)
        ensures
            b@ == (CreateModel { name: Seq::empty(), config: blank_config() }),
    {
        CreateBuilder { name: String::new(), config: Config::default() }
    }

    /// The target that creates the container: `/containers/create`, with
    /// the parameter `name` where the name is not empty.
    pub fn get_path(&self) -> (s: String)
        ensures
            s@ == target_text("/containers/create"@, filled_param("name"@, self@.name)),
    {
        let mut target = Target::new("/containers/create".to_owned());
        if !self.name.as_str().is_empty() {
            target.add("name", self.name.as_str());
            assert(target.params() =~= filled_param("name"@, self@.name));
        }
        target.finish()
    }
}

} // verus!
