//! The filters of a container list.

use crate::dict::{put, Dict};
use crate::json::{json_array_text, string_array};
use vstd::prelude::*;

verus! {

/// Accumulates the fields of a [`Filters`].
#[derive(Debug)]
pub struct FiltersBuilder {
    pub label: Dict<Option<String>>,
}

impl View for FiltersBuilder {
    type V = FiltersModel;

    open spec fn view(&self) -> FiltersModel {
        FiltersModel {
            label: self.label.deep_view(),
        }
    }
}

impl DeepView for FiltersBuilder {
    type V = FiltersModel;

    open spec fn deep_view(&self) -> FiltersModel {
        self@
    }
}

/// The filters of a container list: labels that a container must carry, with or without a value.
#[derive(Debug)]
pub struct Filters {
    pub label: Dict<Option<String>>,
}

/// What a [`Filters`] or its builder holds.
pub struct FiltersModel {
    pub label: Seq<(Seq<char>, Option<Seq<char>>)>,
}

impl View for Filters {
    type V = FiltersModel;

    open spec fn view(&self) -> FiltersModel {
        FiltersModel {
            label: self.label.deep_view(),
        }
    }
}

impl DeepView for Filters {
    type V = FiltersModel;

    open spec fn deep_view(&self) -> FiltersModel {
        self@
    }
}

impl Clone for Filters {
    fn clone(&self) -> (res: Self)
        ensures
            res@ == self@,
    {
        let label = self.label.clone();
        assert(label.deep_view() =~= self.label.deep_view());
        Filters {
            label,
        }
    }
}

/// One label as a filter: `key=value`, or `key` alone where no value is
/// asked for.
pub open spec fn label_item(entry: (Seq<char>, Option<Seq<char>>)) -> Seq<char> {
    match entry.1 {
        Some(v) => entry.0 + "="@ + v,
        None => entry.0,
    }
}

/// The labels as filters, in order.
pub open spec fn label_items(label: Seq<(Seq<char>, Option<Seq<char>>)>) -> Seq<Seq<char>> {
    Seq::new(label.len(), |i: int| label_item(label[i]))
}

/// The filters as JSON: an object with the member `label`, the list of
/// [`label_items`].
pub open spec fn filters_json(m: FiltersModel) -> Seq<char> {
    "{\"label\":"@ + json_array_text(label_items(m.label)) + "}"@
}

impl FiltersBuilder {
    /// A builder with no label.
    pub fn new() -> (b: Self)
        ensures
            b@ == (FiltersModel {
                label: Seq::empty(),
            }),
    {
        let b = FiltersBuilder {
            label: Dict::new(),
        };
        assert(b.label.deep_view() =~= Seq::<(Seq<char>, Option<Seq<char>>)>::empty());
        b
    }

    /// Asks for the label `key`, with the value `value` where one is given.
    pub fn label(&mut self, key: &str, value: Option<String>) -> (ret: &mut Self)
        ensures
            ret@ == (FiltersModel { label: put(old(self)@.label, key@, value.deep_view()) }),
            *final(self) == *final(ret),
    {
        self.label.set(key, value);
        self
    }

    /// The filters with the labels set so far.
    pub fn build(&self) -> (res: Filters)
        ensures
            res@ == self@,
    {
        let label = self.label.clone();
        assert(label.deep_view() =~= self.label.deep_view());
        Filters {
            label,
        }
    }
}

impl Filters {
    /// A builder with no label.
    pub fn new() -> (b: FiltersBuilder)
        ensures
            b@ == (FiltersModel {
                label: Seq::empty(),
            }),
    {
        FiltersBuilder::new()
    }

    /// A copy of the labels.
    pub fn label(&self) -> (r: Dict<Option<String>>)
        ensures
            r.deep_view() == self@.label,
    {
        let r = self.label.clone();
        assert(r.deep_view() =~= self.label.deep_view());
        r
    }

    /// The labels as filters, in order: see [`label_items`].
    pub fn items(&self) -> (r: Vec<String>)
        ensures
            r.deep_view() == label_items(self@.label),
    {
        let mut r: Vec<String> = Vec::new();
        let mut i: usize = 0;
        while i < self.label.len()
            invariant
                i <= self.label@.len(),
                r@.len() == i,
                forall|j: int| 0 <= j < i ==> (#[trigger] r@[j])@ == label_item(self@.label[j]),
            decreases self.label@.len() - i,
        {
            let mut item = self.label.key_at(i).clone();
            match self.label.value_at(i) {
                Some(v) => {
                    item.append("=");
                    item.append(v.as_str());
                },
                None => {},
            }
            assert(item@ == label_item(self@.label[i as int]));
            r.push(item);
            i += 1;
        }
        assert(r.deep_view() =~= label_items(self@.label));
        r
    }

    /// The filters as JSON, if the list of labels can be written: see
    /// [`filters_json`].
    pub fn to_json(&self) -> (r: Option<String>)
        ensures
            r matches Some(s) ==> s@ == filters_json(self@),
    {
        let items = self.items();
        match string_array(&items) {
            Ok(list) => Some(Filters::wrap(list.as_str())),
            Err(_) => None,
        }
    }

    /// The object with the member `label` whose value is the JSON text
    /// `list`.
    pub fn wrap(list: &str) -> (s: String)
        ensures
            s@ == "{\"label\":"@ + list@ + "}"@,
    {
        let mut s = "{\"label\":".to_owned();
        s.append(list);
        s.append("}");
        s
    }
}

} // verus!
