//! The request that inspects a container.

use crate::path::{bool_str, bool_text};
use vstd::prelude::*;

verus! {

/// The request that inspects a container.
#[derive(Debug)]
pub struct Inspect {
    pub id: String,
    pub size: Option<bool>,
}

/// What a [`Inspect`] holds.
pub struct InspectModel {
    pub id: Seq<char>,
    pub size: Option<bool>,
}

impl View for Inspect {
    type V = InspectModel;

    open spec fn view(&self) -> InspectModel {
        InspectModel {
            id: self.id.deep_view(),
            size: self.size,
        }
    }
}

impl DeepView for Inspect {
    type V = InspectModel;

    open spec fn deep_view(&self) -> InspectModel {
        self@
    }
}

impl Inspect {
    /// A request about the container `_id`, which does not ask for sizes.
    pub fn container(_id: String) -> (r: Self)
        ensures
            r@ == (InspectModel { id: _id@, size: None }),
    {
        Inspect { id: _id, size: None }
    }

    /// Sets whether the sizes of the container are asked for.
    pub fn size(&mut self, v: bool)
        ensures
            final(self)@ == (InspectModel { size: Some(v), ..old(self)@ }),
    {
        self.size = Some(v);
    }

    /// The target of the request: `/containers/<id>/json?size=<size>`,
    /// where sizes that were not asked for count as `false`.
    pub fn get_path(&self) -> (s: String)
        ensures
            s@ == "/containers/"@ + self@.id + "/json?size="@ + bool_text(
                self@.size == Some(true),
            ),
    {
        let mut s = "/containers/".to_owned();
        s.append(self.id.as_str());
        s.append("/json?size=");
        s.append(
            bool_str(
                match self.size {
                    Some(b) => b,
                    None => false,
                },
            ),
        );
        s
    }
}

} // verus!
