//! Building the targets of the engine's endpoints.

use crate::http::url::{pair_text, query_text, target_text};
use crate::text::{decimal, push_decimal};
use vstd::prelude::*;

verus! {

/// The text of a truth value: `true` or `false`.
pub open spec fn bool_text(b: bool) -> Seq<char> {
    if b {
        "true"@
    } else {
        "false"@
    }
}

/// The decimal text of a signed number: a minus sign before the numeral
/// of a negative one.
pub open spec fn int_text(n: int) -> Seq<char> {
    if n < 0 {
        seq!['-'] + decimal((-n) as nat)
    } else {
        decimal(n as nat)
    }
}

/// One parameter where `value` is given, none otherwise.
pub open spec fn opt_param(key: Seq<char>, value: Option<Seq<char>>) -> Seq<(Seq<char>, Seq<char>)> {
    match value {
        Some(v) => seq![(key, v)],
        None => Seq::empty(),
    }
}

/// One parameter where `value` is not empty, none otherwise.
pub open spec fn filled_param(key: Seq<char>, value: Seq<char>) -> Seq<(Seq<char>, Seq<char>)> {
    if value.len() > 0 {
        seq![(key, value)]
    } else {
        Seq::empty()
    }
}

/// The text of a truth value.
pub fn bool_str(b: bool) -> (s: &'static str)
    ensures
        s@ == bool_text(b),
{
    if b {
        "true"
    } else {
        "false"
    }
}

/// The decimal text of a signed number.
pub fn int_string(n: i32) -> (s: String)
    ensures
        s@ == int_text(n as int),
{
    let mut s = String::new();
    if n < 0 {
        proof {
            reveal_strlit("-");
        }
        s.append("-");
        let magnitude: u32 = (-(n as i64)) as u32;
        push_decimal(&mut s, magnitude as usize);
        assert(s@ =~= int_text(n as int));
    } else {
        push_decimal(&mut s, n as usize);
        assert(s@ =~= int_text(n as int));
    }
    s
}

/// Adding a parameter to a target appends `?` or `&`, and the parameter
/// as `key=value`.
pub proof fn lemma_target_grows(
    path: Seq<char>,
    params: Seq<(Seq<char>, Seq<char>)>,
    p: (Seq<char>, Seq<char>),
)
    ensures
        target_text(path, params.push(p)) == target_text(path, params) + (if params.len() == 0 {
            seq!['?']
        } else {
            seq!['&']
        }) + pair_text(p),
{
    let next = params.push(p);
    assert(next.drop_last() =~= params);
    assert(next.last() == p);
    if params.len() == 0 {
        assert(query_text(next) == pair_text(p));
        assert(target_text(path, next) =~= path + seq!['?'] + pair_text(p));
    } else {
        assert(query_text(next) == query_text(params) + seq!['&'] + pair_text(p));
        assert(target_text(path, next) =~= target_text(path, params) + seq!['&'] + pair_text(p));
    }
}

/// A target in the making: a path, and the parameters added to it.
pub struct Target {
    text: String,
    plain: bool,
    path: Ghost<Seq<char>>,
    params: Ghost<Seq<(Seq<char>, Seq<char>)>>,
}

impl Target {
    /// The validity of a target in the making: its text is the text of
    /// its path and parameters.
    #[verifier::type_invariant]
    pub closed spec fn wf(&self) -> bool {
        &&& self.text@ == target_text(self.path@, self.params@)
        &&& self.plain == (self.params@.len() == 0)
    }

    /// The path.
    pub closed spec fn path(&self) -> Seq<char> {
        self.path@
    }

    /// The parameters added so far, in order.
    pub closed spec fn params(&self) -> Seq<(Seq<char>, Seq<char>)> {
        self.params@
    }

    /// A target with the path `path` and no parameter.
    pub fn new(path: String) -> (t: Target)
        ensures
            t.path() == path@,
            t.params() == Seq::<(Seq<char>, Seq<char>)>::empty(),
    {
        Target { path: Ghost(path@), text: path, plain: true, params: Ghost(Seq::empty()) }
    }

    /// Adds the parameter `key=value` behind those added before. Nothing
    /// is escaped, and a key may be added twice.
    pub fn add(&mut self, key: &str, value: &str)
        ensures
            final(self).path() == old(self).path(),
            final(self).params() == old(self).params().push((key@, value@)),
    {
        proof {
            use_type_invariant(&*self);
            lemma_target_grows(self.path@, self.params@, (key@, value@));
            reveal_strlit("?");
            reveal_strlit("&");
            reveal_strlit("=");
        }
        let mut taken = Target {
            text: String::new(),
            plain: true,
            path: Ghost(Seq::empty()),
            params: Ghost(Seq::empty()),
        };
        core::mem::swap(self, &mut taken);
        let Target { text, plain, path, params } = taken;
        let mut text = text;
        if plain {
            text.append("?");
        } else {
            text.append("&");
        }
        text.append(key);
        text.append("=");
        text.append(value);
        let ghost longer = params@.push((key@, value@));
        assert(text@ =~= target_text(path@, longer));
        *self = Target { text, plain: false, path, params: Ghost(longer) };
    }

    /// The text of the target: see [`target_text`].
    pub fn finish(self) -> (s: String)
        ensures
            s@ == target_text(self.path(), self.params()),
    {
        proof {
            use_type_invariant(&self);
        }
        self.text
    }
}

} // verus!
