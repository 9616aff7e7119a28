//! The request that removes a container.

use crate::http::url::target_text;
use crate::path::{bool_str, bool_text, opt_param, Target};
use vstd::prelude::*;

verus! {

/// Accumulates the fields of a [`Remover`].
#[derive(Debug)]
pub struct RemoverBuilder {
    pub id: String,
    pub v: Option<bool>,
    pub force: Option<bool>,
    pub link: Option<bool>,
}

impl View for RemoverBuilder {
    type V = RemoverModel;

    open spec fn view(&self) -> RemoverModel {
        RemoverModel {
            id: self.id.deep_view(),
            v: self.v,
            force: self.force,
            link: self.link,
        }
    }
}

impl DeepView for RemoverBuilder {
    type V = RemoverModel;

    open spec fn deep_view(&self) -> RemoverModel {
        self@
    }
}

/// The request that removes a container.
#[derive(Debug)]
pub struct Remover {
    pub id: String,
    pub v: Option<bool>,
    pub force: Option<bool>,
    pub link: Option<bool>,
}

/// What a [`Remover`] or its builder holds.
pub struct RemoverModel {
    pub id: Seq<char>,
    pub v: Option<bool>,
    pub force: Option<bool>,
    pub link: Option<bool>,
}

impl View for Remover {
    type V = RemoverModel;

    open spec fn view(&self) -> RemoverModel {
        RemoverModel {
            id: self.id.deep_view(),
            v: self.v,
            force: self.force,
            link: self.link,
        }
    }
}

impl DeepView for Remover {
    type V = RemoverModel;

    open spec fn deep_view(&self) -> RemoverModel {
        self@
    }
}

/// The text of a truth value that may be missing.
pub open spec fn opt_bool_text(o: Option<bool>) -> Option<Seq<char>> {
    match o {
        Some(b) => Some(bool_text(b)),
        None => None,
    }
}

/// The parameters of a removal: `v`, `force` and `link`, in this order,
/// each where it was set.
pub open spec fn remove_params(m: RemoverModel) -> Seq<(Seq<char>, Seq<char>)> {
    opt_param("v"@, opt_bool_text(m.v)) + opt_param("force"@, opt_bool_text(m.force)) + opt_param(
        "link"@,
        opt_bool_text(m.link),
    )
}

impl Remover {
    /// A builder with an empty id and nothing set.
    pub fn new() -> (b: RemoverBuilder)
        ensures
            b@ == (RemoverModel {
                id: Seq::empty(),
                v: None,
                force: None,
                link: None,
            }),
    {
        RemoverBuilder::new()
    }

    /// The target of the request: `/containers/<id>/remove`, with the
    /// parameters of [`remove_params`].
    pub fn get_path(&self) -> (s: String)
        ensures
            s@ == target_text("/containers/"@ + self@.id + "/remove"@, remove_params(self@)),
    {
        let mut path = "/containers/".to_owned();
        path.append(self.id.as_str());
        path.append("/remove");
        let mut target = Target::new(path);
        match self.v {
            Some(b) => target.add("v", bool_str(b)),
            None => {},
        }
        match self.force {
            Some(b) => target.add("force", bool_str(b)),
            None => {},
        }
        match self.link {
            Some(b) => target.add("link", bool_str(b)),
            None => {},
        }
        assert(target.params() =~= remove_params(self@));
        target.finish()
    }
}

impl RemoverBuilder {
    /// A builder with an empty id and nothing set.
    pub fn new() -> (b: Self)
        ensures
            b@ == (RemoverModel {
                id: Seq::empty(),
                v: None,
                force: None,
                link: None,
            }),
    {
        let b = RemoverBuilder {
            id: String::new(),
            v: None,
            force: None,
            link: None,
        };
        b
    }

    /// Sets the id or name of the container.
    pub fn id(&mut self, id: &str) -> (ret: &mut Self)
        ensures
            ret@ == (RemoverModel { id: id@, ..old(self)@ }),
            *final(self) == *final(ret),
    {
        self.id = id.to_owned();
        self
    }

    /// Sets whether the volumes of the container are removed with it.
    pub fn with_remove_volumes(&mut self, v: bool) -> (ret: &mut Self)
        ensures
            ret@ == (RemoverModel { v: Some(v), ..old(self)@ }),
            *final(self) == *final(ret),
    {
        self.v = Some(v);
        self
    }

    /// Sets whether a running container is killed and removed.
    pub fn with_force_delete(&mut self, v: bool) -> (ret: &mut Self)
        ensures
            ret@ == (RemoverModel { force: Some(v), ..old(self)@ }),
            *final(self) == *final(ret),
    {
        self.force = Some(v);
        self
    }

    /// Sets whether the link of the container is removed.
    pub fn with_remove_link(&mut self, v: bool) -> (ret: &mut Self)
        ensures
            ret@ == (RemoverModel { link: Some(v), ..old(self)@ }),
            *final(self) == *final(ret),
    {
        self.link = Some(v);
        self
    }

    /// The request with the fields set so far.
    pub fn build(&self) -> (res: Remover)
        ensures
            res@ == self@,
    {
        let id = self.id.clone();
        Remover {
            id,
            v: self.v,
            force: self.force,
            link: self.link,
        }
    }
}

} // verus!
