//! The request that connects a container to a network.

use vstd::prelude::*;

verus! {

/// Accumulates the fields of a [`Request`].
#[derive(Debug)]
pub struct RequestBuilder {
    pub id: String,
    pub container: String,
}

impl View for RequestBuilder {
    type V = RequestModel;

    open spec fn view(&self) -> RequestModel {
        RequestModel {
            id: self.id.deep_view(),
            container: self.container.deep_view(),
        }
    }
}

impl DeepView for RequestBuilder {
    type V = RequestModel;

    open spec fn deep_view(&self) -> RequestModel {
        self@
    }
}

/// The request that connects a container to a network.
#[derive(Debug)]
pub struct Request {
    pub id: String,
    pub container: String,
}

/// What a [`Request`] or its builder holds.
pub struct RequestModel {
    pub id: Seq<char>,
    pub container: Seq<char>,
}

impl View for Request {
    type V = RequestModel;

    open spec fn view(&self) -> RequestModel {
        RequestModel {
            id: self.id.deep_view(),
            container: self.container.deep_view(),
        }
    }
}

impl DeepView for Request {
    type V = RequestModel;

    open spec fn deep_view(&self) -> RequestModel {
        self@
    }
}

impl Default for RequestBuilder {
    fn default() -> (b: Self)
        ensures
            b@ == (RequestModel {
                id: Seq::empty(),
                container: Seq::empty(),
            }),
    {
        let b = RequestBuilder {
            id: String::new(),
            container: String::new(),
        };
        b
    }
}

impl RequestBuilder {
    /// A builder for the network `id`, with no container.
    pub fn with_name(id: &str) -> (b: Self)
        ensures
            b@ == (RequestModel {
                id: id@,
                container: Seq::empty(),
            }),
    {
        let b = RequestBuilder {
            id: id.to_owned(),
            container: String::new(),
        };
        b
    }

    /// Sets the id or name of the container.
    pub fn container(&mut self, name: &str) -> (ret: &mut Self)
        ensures
            ret@ == (RequestModel { container: name@, ..old(self)@ }),
            *final(self) == *final(ret),
    {
        self.container = name.to_owned();
        self
    }

    /// The request with the fields set so far.
    pub fn build(&self) -> (res: Request)
        ensures
            res@ == self@,
    {
        let id = self.id.clone();
        let container = self.container.clone();
        Request {
            id,
            container,
        }
    }
}

impl Request {
    /// The target of the request: `/networks/<id>/connect`.
    pub fn get_path(&self) -> (s: String)
        ensures
            s@ == "/networks/"@ + self@.id + "/connect"@,
    {
        let mut s = "/networks/".to_owned();
        s.append(self.id.as_str());
        s.append("/connect");
        s
    }
}

} // verus!
