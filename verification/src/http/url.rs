//! Request targets: a path and its query parameters.

use crate::dict::{distinct_keys, put, Dict};
use crate::http::scan::occurs_at;
use vstd::prelude::*;

verus! {

/// The text `key=value`.
pub open spec fn pair_text(p: (Seq<char>, Seq<char>)) -> Seq<char> {
    p.0 + seq!['='] + p.1
}

/// The parameters joined as `k=v&k2=v2`, in their order.
pub open spec fn query_text(params: Seq<(Seq<char>, Seq<char>)>) -> Seq<char>
    decreases params.len(),
{
    if params.len() == 0 {
        Seq::empty()
    } else if params.len() == 1 {
        pair_text(params[0])
    } else {
        query_text(params.drop_last()) + seq!['&'] + pair_text(params.last())
    }
}

/// The target as it stands in a request line: the path alone where there
/// is no parameter, else the path, `?` and the joined parameters. Nothing
/// is escaped.
pub open spec fn target_text(path: Seq<char>, params: Seq<(Seq<char>, Seq<char>)>) -> Seq<char> {
    if params.len() == 0 {
        path
    } else {
        path + seq!['?'] + query_text(params)
    }
}

/// The text of a target with parameters begins with the path and `?`,
/// and holds each parameter as `key=value`.
pub proof fn lemma_target_holds_parameters(
    path: Seq<char>,
    params: Seq<(Seq<char>, Seq<char>)>,
    i: int,
)
    requires
        0 <= i < params.len(),
    ensures
        occurs_at(target_text(path, params), path + seq!['?'], 0),
        exists|k: int|
            path.len() < k && occurs_at(target_text(path, params), pair_text(params[i]), k),
    decreases params.len(),
{
    let text = target_text(path, params);
    let before = params.drop_last();
    let last = pair_text(params.last());
    if params.len() == 1 {
        assert(query_text(params) == pair_text(params[0]));
        assert(text =~= path + seq!['?'] + last);
        assert(text.subrange(0, path.len() as int + 1) =~= path + seq!['?']);
        let k = path.len() as int + 1;
        assert(text.subrange(k, k + last.len()) =~= last);
        assert(occurs_at(text, pair_text(params[i]), k));
    } else {
        let shorter = target_text(path, before);
        assert(query_text(params) == query_text(before) + seq!['&'] + last);
        assert(text =~= shorter + seq!['&'] + last);
        lemma_target_holds_parameters(path, before, 0);
        assert(text.subrange(0, path.len() as int + 1) =~= shorter.subrange(
            0,
            path.len() as int + 1,
        ));
        if i == params.len() - 1 {
            let k = shorter.len() as int + 1;
            assert(text.subrange(k, k + last.len()) =~= last);
            assert(occurs_at(text, pair_text(params[i]), k));
        } else {
            lemma_target_holds_parameters(path, before, i);
            let item = pair_text(before[i]);
            let k = choose|k: int| path.len() < k && occurs_at(shorter, item, k);
            assert(text.subrange(k, k + item.len()) =~= shorter.subrange(k, k + item.len()));
            assert(occurs_at(text, pair_text(params[i]), k));
        }
    }
}

/// Accumulates a path and query parameters for a [`URI`].
#[derive(Debug)]
pub struct URIBuilder {
    url: String,
    params: Dict<String>,
}

/// A request target: a path and query parameters.
#[derive(Debug)]
pub struct URI {
    url: String,
    params: Dict<String>,
}

impl URIBuilder {
    /// The path set so far.
    pub closed spec fn path(&self) -> Seq<char> {
        self.url@
    }

    /// The parameters set so far, in order of first insertion.
    pub closed spec fn parameters(&self) -> Seq<(Seq<char>, Seq<char>)> {
        self.params.deep_view()
    }

    /// The validity of a builder: no parameter key occurs twice.
    pub closed spec fn wf(&self) -> bool {
        self.params.wf()
    }

    /// In a valid builder the parameter keys are distinct.
    pub proof fn lemma_wf(&self)
        requires
            self.wf(),
        ensures
            distinct_keys(self.parameters()),
    {
        self.params.lemma_wf();
        assert forall|i: int, j: int| 0 <= i < j < self.parameters().len() implies (
        #[trigger] self.parameters()[i]).0 != (#[trigger] self.parameters()[j]).0 by {
            assert(self.params@[i].0 != self.params@[j].0);
        }
    }

    /// A builder with an empty path and no parameter.
    pub fn new() -> (b: Self)
        ensures
            b.path() == Seq::<char>::empty(),
            b.parameters() == Seq::<(Seq<char>, Seq<char>)>::empty(),
            b.wf(),
    {
        let b = URIBuilder { url: String::new(), params: Dict::new() };
        assert(b.parameters() =~= Seq::<(Seq<char>, Seq<char>)>::empty());
        b
    }

    /// Sets the path.
    pub fn url(&mut self, url: &str) -> (ret: &mut Self)
        ensures
            ret.path() == url@,
            ret.parameters() == old(self).parameters(),
            old(self).wf() ==> ret.wf(),
            *final(self) == *final(ret),
    {
        self.url = url.to_owned();
        self
    }

    /// Sets the parameter `key` to `value`: a parameter with this key is
    /// overwritten in place, a new key is appended.
    pub fn parameter(&mut self, key: &str, value: &str) -> (ret: &mut Self)
        ensures
            ret.path() == old(self).path(),
            ret.parameters() == put(old(self).parameters(), key@, value@),
            ret.wf(),
            *final(self) == *final(ret),
    {
        self.params.set(key, value.to_owned());
        self
    }

    /// The target with the path and parameters set so far.
    pub fn build(&self) -> (uri: URI)
        ensures
            uri.path() == self.path(),
            uri.parameters() == self.parameters(),
            uri.wf(),
    {
        let params = self.params.clone();
        assert(params.deep_view() =~= self.params.deep_view());
        URI { url: self.url.clone(), params }
    }
}

impl URI {
    /// The path.
    pub closed spec fn path(&self) -> Seq<char> {
        self.url@
    }

    /// The query parameters, in order of first insertion.
    pub closed spec fn parameters(&self) -> Seq<(Seq<char>, Seq<char>)> {
        self.params.deep_view()
    }

    /// The validity of a target: no parameter key occurs twice.
    pub closed spec fn wf(&self) -> bool {
        self.params.wf()
    }

    /// The text of the target: see [`target_text`].
    pub open spec fn text(&self) -> Seq<char> {
        target_text(self.path(), self.parameters())
    }

    /// In a valid target the parameter keys are distinct.
    pub proof fn lemma_wf(&self)
        requires
            self.wf(),
        ensures
            distinct_keys(self.parameters()),
    {
        self.params.lemma_wf();
        assert forall|i: int, j: int| 0 <= i < j < self.parameters().len() implies (
        #[trigger] self.parameters()[i]).0 != (#[trigger] self.parameters()[j]).0 by {
            assert(self.params@[i].0 != self.params@[j].0);
        }
    }

    /// A builder with an empty path and no parameter.
    pub fn new() -> (b: URIBuilder)
        ensures
            b.path() == Seq::<char>::empty(),
            b.parameters() == Seq::<(Seq<char>, Seq<char>)>::empty(),
            b.wf(),
    {
        URIBuilder::new()
    }

    /// A builder with the path `url` and no parameter.
    pub fn with_path(url: &str) -> (b: URIBuilder)
        ensures
            b.path() == url@,
            b.parameters() == Seq::<(Seq<char>, Seq<char>)>::empty(),
            b.wf(),
    {
        let b = URIBuilder { url: url.to_owned(), params: Dict::new() };
        assert(b.parameters() =~= Seq::<(Seq<char>, Seq<char>)>::empty());
        b
    }

    /// Appends the text of the target to `out`.
    pub fn write_to(&self, out: &mut String)
        ensures
            final(out)@ == old(out)@ + self.text(),
    {
        out.append(self.url.as_str());
        let n = self.params.len();
        let mut i: usize = 0;
        while i < n
            invariant
                i <= n,
                n == self.params@.len(),
                out@ == old(out)@ + target_text(self.path(), self.parameters().take(i as int)),
            decreases n - i,
        {
            let ghost before = out@;
            let ghost done = self.parameters().take(i as int);
            let ghost next = self.parameters().take(i + 1);
            if i == 0 {
                out.append("?");
            } else {
                out.append("&");
            }
            out.append(self.params.key_at(i).as_str());
            out.append("=");
            out.append(self.params.value_at(i).as_str());
            proof {
                reveal_strlit("?");
                reveal_strlit("&");
                reveal_strlit("=");
                let p = self.parameters()[i as int];
                assert(next.drop_last() =~= done);
                assert(next.last() == p);
                if i == 0 {
                    assert(query_text(next) == pair_text(p));
                    assert(out@ =~= before + seq!['?'] + pair_text(p));
                } else {
                    assert(query_text(next) == query_text(done) + seq!['&'] + pair_text(p));
                    assert(out@ =~= before + seq!['&'] + pair_text(p));
                }
                assert(out@ =~= old(out)@ + target_text(self.path(), next));
            }
            i += 1;
        }
        assert(self.parameters().take(n as int) =~= self.parameters());
    }

    /// The text of the target: the path alone where there is no parameter,
    /// else the path, `?` and the parameters as `key=value` joined by `&`,
    /// in order of first insertion. Nothing is escaped.
    pub fn to_string(&self) -> (s: String)
        ensures
            s@ == self.text(),
    {
        let mut s = String::new();
        self.write_to(&mut s);
        s
    }
}

impl Default for URIBuilder {
    fn default() -> (b: Self)
        ensures
            b.path() == Seq::<char>::empty(),
            b.parameters() == Seq::<(Seq<char>, Seq<char>)>::empty(),
            b.wf(),
    {
        URIBuilder::new()
    }
}

impl Default for URI {
    fn default() -> (uri: Self)
        ensures
            uri.path() == Seq::<char>::empty(),
            uri.parameters() == Seq::<(Seq<char>, Seq<char>)>::empty(),
            uri.wf(),
    {
        URIBuilder::new().build()
    }
}

impl Clone for URI {
    fn clone(&self) -> (res: Self)
        ensures
            res.path() == self.path(),
            res.parameters() == self.parameters(),
            res.wf(),
    {
        let params = self.params.clone();
        assert(params.deep_view() =~= self.params.deep_view());
        URI { url: self.url.clone(), params }
    }
}

} // verus!
