//! The request that lists the processes of a container.

use crate::http::url::target_text;
use crate::path::{filled_param, Target};
use vstd::prelude::*;

verus! {

/// The request that lists the processes of a container.
#[derive(Debug)]
pub struct ProcessesList {
    pub id: String,
    pub ps_args: String,
}

/// What a [`ProcessesList`] holds.
pub struct ProcessesListModel {
    pub id: Seq<char>,
    pub ps_args: Seq<char>,
}

impl View for ProcessesList {
    type V = ProcessesListModel;

    open spec fn view(&self) -> ProcessesListModel {
        ProcessesListModel {
            id: self.id.deep_view(),
            ps_args: self.ps_args.deep_view(),
        }
    }
}

impl DeepView for ProcessesList {
    type V = ProcessesListModel;

    open spec fn deep_view(&self) -> ProcessesListModel {
        self@
    }
}

impl ProcessesList {
    /// A request about the container `name`, with no arguments to `ps`.
    pub fn container(name: String) -> (r: Self)
        ensures
            r@ == (ProcessesListModel { id: name@, ps_args: Seq::empty() }),
    {
        ProcessesList { id: name, ps_args: String::new() }
    }

    /// Sets the arguments that are handed to `ps`.
    pub fn ps_args(&mut self, args: String)
        ensures
            final(self)@ == (ProcessesListModel { ps_args: args@, ..old(self)@ }),
    {
        self.ps_args = args;
    }

    /// The target of the request: `/containers/<id>/top`, with the
    /// parameter `ps_args` where arguments are given.
    pub fn get_path(&self) -> (s: String)
        ensures
            s@ == target_text(
                "/containers/"@ + self@.id + "/top"@,
                filled_param("ps_args"@, self@.ps_args),
            ),
    {
        let mut path = "/containers/".to_owned();
        path.append(self.id.as_str());
        path.append("/top");
        let mut target = Target::new(path);
        if !self.ps_args.as_str().is_empty() {
            target.add("ps_args", self.ps_args.as_str());
            assert(target.params() =~= filled_param("ps_args"@, self@.ps_args));
        }
        target.finish()
    }
}

} // verus!
