//! The request that kills a container.

use crate::dict::{has_key, put};
use crate::http::request::{HTTPMethod, Request};
use crate::http::url::{target_text, URI};
use crate::path::{opt_param, Target};
use vstd::prelude::*;

verus! {

/// Accumulates the fields of a [`Killer`].
#[derive(Debug)]
pub struct KillerBuilder {
    pub id: String,
    pub signal: Option<String>,
}

impl View for KillerBuilder {
    type V = KillerModel;

    open spec fn view(&self) -> KillerModel {
        KillerModel {
            id: self.id.deep_view(),
            signal: self.signal.deep_view(),
        }
    }
}

impl DeepView for KillerBuilder {
    type V = KillerModel;

    open spec fn deep_view(&self) -> KillerModel {
        self@
    }
}

/// The request that kills a container.
#[derive(Debug)]
pub struct Killer {
    pub id: String,
    pub signal: Option<String>,
}

/// What a [`Killer`] or its builder holds.
pub struct KillerModel {
    pub id: Seq<char>,
    pub signal: Option<Seq<char>>,
}

impl View for Killer {
    type V = KillerModel;

    open spec fn view(&self) -> KillerModel {
        KillerModel {
            id: self.id.deep_view(),
            signal: self.signal.deep_view(),
        }
    }
}

impl DeepView for Killer {
    type V = KillerModel;

    open spec fn deep_view(&self) -> KillerModel {
        self@
    }
}

/// The path that kills the container `id`.
pub open spec fn kill_path(id: Seq<char>) -> Seq<char> {
    "/containers/"@ + id + "/kill"@
}

impl Killer {
    /// A builder with an empty id and no signal.
    pub fn new() -> (b: KillerBuilder)
        ensures
            b@ == (KillerModel {
                id: Seq::empty(),
                signal: None,
            }),
    {
        KillerBuilder::new()
    }

    /// The target of the request: `/containers/<id>/kill`, with the
    /// parameter `signal` where a signal is given.
    pub fn get_path(&self) -> (s: String)
        ensures
            s@ == target_text(kill_path(self@.id), opt_param("signal"@, self@.signal)),
    {
        let mut path = "/containers/".to_owned();
        path.append(self.id.as_str());
        path.append("/kill");
        let mut target = Target::new(path);
        match &self.signal {
            Some(signal) => {
                target.add("signal", signal.as_str());
                assert(target.params() =~= opt_param("signal"@, self@.signal));
            },
            None => {},
        }
        target.finish()
    }

    /// The request on the wire: a POST to the target of [`Killer::get_path`],
    /// without headers and without a body.
    pub fn to_request(&self) -> (r: Request)
        ensures
            r.method() == HTTPMethod::POST,
            r.target() == target_text(kill_path(self@.id), opt_param("signal"@, self@.signal)),
            r.headers() == Seq::<(Seq<char>, Seq<char>)>::empty(),
            r.body() == Seq::<char>::empty(),
            r.wf(),
    {
        let mut path = "/containers/".to_owned();
        path.append(self.id.as_str());
        path.append("/kill");
        let mut uri = URI::with_path(path.as_str());
        match &self.signal {
            Some(signal) => {
                uri.parameter("signal", signal.as_str());
                proof {
                    let none = Seq::<(Seq<char>, Seq<char>)>::empty();
                    assert(!has_key(none, "signal"@));
                    assert(put(none, "signal"@, signal@) =~= opt_param("signal"@, self@.signal));
                }
            },
            None => {},
        }
        let mut builder = Request::post();
        builder.url(uri.build());
        builder.build()
    }
}

impl KillerBuilder {
    /// A builder with an empty id and no signal.
    pub fn new() -> (b: Self)
        ensures
            b@ == (KillerModel {
                id: Seq::empty(),
                signal: None,
            }),
    {
        let b = KillerBuilder {
            id: String::new(),
            signal: None,
        };
        b
    }

    /// Sets the id or name of the container.
    pub fn id(self, id: &str) -> (ret: Self)
        ensures
            ret@ == (KillerModel { id: id@, ..self@ }),
    {
        let mut ret = self;
        ret.id = id.to_owned();
        ret
    }

    /// Sets the signal to send, by name or number.
    pub fn signal(self, signal: &str) -> (ret: Self)
        ensures
            ret@ == (KillerModel { signal: Some(signal@), ..self@ }),
    {
        let mut ret = self;
        ret.signal = Some(signal.to_owned());
        ret
    }

    /// The request with the fields set so far.
    pub fn build(self) -> (res: Killer)
        ensures
            res@ == self@,
    {
        Killer {
            id: self.id,
            signal: self.signal,
        }
    }
}

} // verus!
