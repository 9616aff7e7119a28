//! The request that inspects a network.

use vstd::prelude::*;

verus! {

/// Accumulates the fields of a [`Request`].
#[derive(Debug)]
pub struct RequestBuilder {
    pub id: String,
    pub verbose: bool,
    pub scope: String,
}

impl View for RequestBuilder {
    type V = RequestModel;

    open spec fn view(&self) -> RequestModel {
        RequestModel {
            id: self.id.deep_view(),
            verbose: self.verbose,
            scope: self.scope.deep_view(),
        }
    }
}

impl DeepView for RequestBuilder {
    type V = RequestModel;

    open spec fn deep_view(&self) -> RequestModel {
        self@
    }
}

/// The request that inspects a network.
#[derive(Debug)]
pub struct Request {
    pub id: String,
    pub verbose: bool,
    pub scope: String,
}

/// What a [`Request`] or its builder holds.
pub struct RequestModel {
    pub id: Seq<char>,
    pub verbose: bool,
    pub scope: Seq<char>,
}

impl View for Request {
    type V = RequestModel;

    open spec fn view(&self) -> RequestModel {
        RequestModel {
            id: self.id.deep_view(),
            verbose: self.verbose,
            scope: self.scope.deep_view(),
        }
    }
}

impl DeepView for Request {
    type V = RequestModel;

    open spec fn deep_view(&self) -> RequestModel {
        self@
    }
}

/// The target of the request: `/networks/<id>?`, then `verbose=true&`
/// where details are asked for, then `scope=<scope>` where a scope is
/// given.
pub open spec fn inspect_target(m: RequestModel) -> Seq<char> {
    "/networks/"@ + m.id + "?"@ + (if m.verbose {
        "verbose=true&"@
    } else {
        Seq::empty()
    }) + (if m.scope.len() > 0 {
        "scope="@ + m.scope
    } else {
        Seq::empty()
    })
}

impl Default for RequestBuilder {
    fn default() -> (b: Self)
        ensures
            b@ == (RequestModel {
                id: Seq::empty(),
                verbose: false,
                scope: Seq::empty(),
            }),
    {
        let b = RequestBuilder {
            id: String::new(),
            verbose: false,
            scope: String::new(),
        };
        b
    }
}

impl RequestBuilder {
    /// A builder for the network `id`, which asks for no details and no scope.
    pub fn with_name(id: &str) -> (b: Self)
        ensures
            b@ == (RequestModel {
                id: id@,
                verbose: false,
                scope: Seq::empty(),
            }),
    {
        let b = RequestBuilder {
            id: id.to_owned(),
            verbose: false,
            scope: String::new(),
        };
        b
    }

    /// The request with the fields set so far.
    pub fn build(self) -> (res: Request)
        ensures
            res@ == self@,
    {
        Request {
            id: self.id,
            verbose: self.verbose,
            scope: self.scope,
        }
    }
}

impl Request {
    /// A builder with an empty id, which asks for no details and no scope.
    pub fn new() -> (b: RequestBuilder)
        ensures
            b@ == (RequestModel {
                id: Seq::empty(),
                verbose: false,
                scope: Seq::empty(),
            }),
    {
        RequestBuilder::default()
    }

    /// The target of the request: see [`inspect_target`].
    pub fn get_path(&self) -> (s: String)
        ensures
            s@ == inspect_target(self@),
    {
        let mut s = "/networks/".to_owned();
        s.append(self.id.as_str());
        s.append("?");
        if self.verbose {
            s.append("verbose=true&");
        }
        if !self.scope.as_str().is_empty() {
            s.append("scope=");
            s.append(self.scope.as_str());
        }
        assert(s@ =~= inspect_target(self@));
        s
    }
}

} // verus!
