//! The request that lists containers.

use crate::container::list::filters::{filters_json, Filters, FiltersBuilder, FiltersModel};
use crate::container::remove::opt_bool_text;
use crate::http::url::target_text;
use crate::path::{bool_str, int_string, int_text, opt_param, Target};
use vstd::prelude::*;

verus! {

/// Accumulates the fields of a [`Request`].
#[derive(Debug)]
pub struct RequestBuilder {
    pub all: Option<bool>,
    pub limit: Option<i32>,
    pub size: Option<bool>,
    pub filters: Filters,
}

impl View for RequestBuilder {
    type V = RequestModel;

    open spec fn view(&self) -> RequestModel {
        RequestModel {
            all: self.all,
            limit: self.limit,
            size: self.size,
            filters: self.filters.deep_view(),
        }
    }
}

impl DeepView for RequestBuilder {
    type V = RequestModel;

    open spec fn deep_view(&self) -> RequestModel {
        self@
    }
}

/// The request that lists containers.
#[derive(Debug)]
pub struct Request {
    pub all: Option<bool>,
    pub limit: Option<i32>,
    pub size: Option<bool>,
    pub filters: Filters,
}

/// What a [`Request`] or its builder holds.
pub struct RequestModel {
    pub all: Option<bool>,
    pub limit: Option<i32>,
    pub size: Option<bool>,
    pub filters: FiltersModel,
}

impl View for Request {
    type V = RequestModel;

    open spec fn view(&self) -> RequestModel {
        RequestModel {
            all: self.all,
            limit: self.limit,
            size: self.size,
            filters: self.filters.deep_view(),
        }
    }
}

impl DeepView for Request {
    type V = RequestModel;

    open spec fn deep_view(&self) -> RequestModel {
        self@
    }
}

impl Clone for Request {
    fn clone(&self) -> (res: Self)
        ensures
            res@ == self@,
    {
        let filters = self.filters.clone();
        Request {
            all: self.all,
            limit: self.limit,
            size: self.size,
            filters,
        }
    }
}

/// `s` with every double quote written as `%22`.
pub open spec fn escape_quotes(s: Seq<char>) -> Seq<char>
    decreases s.len(),
{
    if s.len() == 0 {
        Seq::empty()
    } else {
        escape_quotes(s.drop_last()) + if s.last() == '"' {
            "%22"@
        } else {
            seq![s.last()]
        }
    }
}

/// The text of a number that may be missing.
pub open spec fn opt_int_text(o: Option<i32>) -> Option<Seq<char>> {
    match o {
        Some(n) => Some(int_text(n as int)),
        None => None,
    }
}

/// The parameters of a list without its filters: `all`, `limit` and
/// `size`, in this order, each where it was set.
pub open spec fn list_params(m: RequestModel) -> Seq<(Seq<char>, Seq<char>)> {
    opt_param("all"@, opt_bool_text(m.all)) + opt_param("limit"@, opt_int_text(m.limit))
        + opt_param("size"@, opt_bool_text(m.size))
}

/// The target of a list whose filters, where it has any, are written as
/// the JSON text `filters`: `/containers/json` with the parameters of
/// [`list_params`] and then, where a label is asked for, the parameter
/// `filters`, its double quotes escaped.
pub open spec fn list_target(m: RequestModel, filters: Seq<char>) -> Seq<char> {
    target_text(
        "/containers/json"@,
        list_params(m) + if m.filters.label.len() > 0 {
            seq![("filters"@, escape_quotes(filters))]
        } else {
            Seq::empty()
        },
    )
}

impl RequestBuilder {
    /// A builder with nothing set.
    pub fn new() -> (b: Self)
        ensures
            b@ == (RequestModel {
                all: None,
                limit: None,
                size: None,
                filters: FiltersModel { label: Seq::empty() },
            }),
    {
        let b = RequestBuilder {
            all: None,
            limit: None,
            size: None,
            filters: FiltersBuilder::new().build(),
        };
        b
    }

    /// Sets whether containers that do not run are listed too.
    pub fn all(&mut self, v: bool) -> (ret: &mut Self)
        ensures
            ret@ == (RequestModel { all: Some(v), ..old(self)@ }),
            *final(self) == *final(ret),
    {
        self.all = Some(v);
        self
    }

    /// Sets the number of containers to list, most recently created first.
    pub fn limit(&mut self, v: i32) -> (ret: &mut Self)
        ensures
            ret@ == (RequestModel { limit: Some(v), ..old(self)@ }),
            *final(self) == *final(ret),
    {
        self.limit = Some(v);
        self
    }

    /// Sets whether the sizes of the containers are listed.
    pub fn size(&mut self, v: bool) -> (ret: &mut Self)
        ensures
            ret@ == (RequestModel { size: Some(v), ..old(self)@ }),
            *final(self) == *final(ret),
    {
        self.size = Some(v);
        self
    }

    /// Sets the filters.
    pub fn filters(&mut self, f: Filters) -> (ret: &mut Self)
        ensures
            ret@ == (RequestModel { filters: f.deep_view(), ..old(self)@ }),
            *final(self) == *final(ret),
    {
        self.filters = f;
        self
    }

    /// The request with the fields set so far.
    pub fn build(&self) -> (res: Request)
        ensures
            res@ == self@,
    {
        let filters = self.filters.clone();
        Request {
            all: self.all,
            limit: self.limit,
            size: self.size,
            filters,
        }
    }
}

impl Request {
    /// A builder with nothing set.
    pub fn new() -> (b: RequestBuilder)
        ensures
            b@ == (RequestModel {
                all: None,
                limit: None,
                size: None,
                filters: FiltersModel { label: Seq::empty() },
            }),
    {
        RequestBuilder::new()
    }

    /// `value` with every double quote written as `%22`.
    pub fn percent_encoded(value: &str) -> (s: String)
        ensures
            s@ == escape_quotes(value@),
    {
        let mut s = String::new();
        let n = value.unicode_len();
        let mut i: usize = 0;
        assert(value@.take(0) =~= Seq::<char>::empty());
        while i < n
            invariant
                i <= n,
                n == value@.len(),
                s@ == escape_quotes(value@.take(i as int)),
            decreases n - i,
        {
            let c = value.get_char(i);
            proof {
                let next = value@.take(i + 1);
                assert(next.drop_last() =~= value@.take(i as int));
                assert(next.last() == c);
                reveal_strlit("%22");
            }
            if c == '"' {
                s.append("%22");
            } else {
                let one = value.substring_char(i, i + 1);
                assert(one@ =~= seq![c]);
                s.append(one);
            }
            i += 1;
        }
        assert(value@.take(n as int) =~= value@);
        s
    }

    /// The target of the request, given its filters as JSON: see
    /// [`list_target`].
    pub fn path_with(&self, filters: &str) -> (s: String)
        ensures
            s@ == list_target(self@, filters@),
    {
        let mut target = Target::new("/containers/json".to_owned());
        match self.all {
            Some(b) => target.add("all", bool_str(b)),
            None => {},
        }
        match self.limit {
            Some(n) => {
                let text = int_string(n);
                target.add("limit", text.as_str());
            },
            None => {},
        }
        match self.size {
            Some(b) => target.add("size", bool_str(b)),
            None => {},
        }
        assert(target.params() =~= list_params(self@));
        if !self.filters.label.is_empty() {
            let escaped = Request::percent_encoded(filters);
            target.add("filters", escaped.as_str());
            assert(self@.filters.label.len() > 0);
            assert(target.params() =~= list_params(self@) + seq![
                ("filters"@, escape_quotes(filters@)),
            ]);
        } else {
            assert(self@.filters.label.len() == 0);
            assert(target.params() =~= list_params(self@) + Seq::empty());
        }
        target.finish()
    }

    /// The target of the request, if its filters can be written as JSON:
    /// [`list_target`] with the text of [`filters_json`]. A request that
    /// asks for no label has a target.
    pub fn get_path(&self) -> (r: Option<String>)
        ensures
            r matches Some(s) ==> s@ == list_target(self@, filters_json(self@.filters)),
            self@.filters.label.len() == 0 ==> r is Some,
    {
        if self.filters.label.is_empty() {
            Some(self.path_with(""))
        } else {
            match self.filters.to_json() {
                Some(json) => Some(self.path_with(json.as_str())),
                None => None,
            }
        }
    }
}

} // verus!
