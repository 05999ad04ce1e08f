//! The options of a cloud speech-to-text request: a JSON object, held as the
//! values its users read and write. Text values and lists are held as text;
//! any other JSON value is held as its JSON text, and carried through as is.
use vstd::prelude::*;
use crate::str_map::StrMap;


verus! {

broadcast use vstd::string::group_string_axioms;

/// An element of a list value.
#[derive(Debug, Clone)]
pub enum OptionItem {
    Text(String),
    /// Any other JSON value, as its JSON text.
    Other(String),
}

/// A value of the options object.
#[derive(Debug, Clone)]
pub enum OptionValue {
    Text(String),
    List(Vec<OptionItem>),
    /// Any other JSON value, as its JSON text.
    Other(String),
}

pub enum OptionItemView {
    Text(Seq<char>),
    Other(Seq<char>),
}

pub enum OptionValueView {
    Text(Seq<char>),
    List(Seq<OptionItemView>),
    Other(Seq<char>),
}

impl View for OptionItem {
    type V = OptionItemView;

    open spec fn view(&self) -> OptionItemView {
        match self {
            OptionItem::Text(t) => OptionItemView::Text(t@),
            OptionItem::Other(j) => OptionItemView::Other(j@),
        }
    }
}

pub open spec fn items_view(items: Seq<OptionItem>) -> Seq<OptionItemView> {
    items.map_values(|i: OptionItem| i@)
}

impl View for OptionValue {
    type V = OptionValueView;

    open spec fn view(&self) -> OptionValueView {
        match self {
            OptionValue::Text(t) => OptionValueView::Text(t@),
            OptionValue::List(items) => OptionValueView::List(items_view(items@)),
            OptionValue::Other(j) => OptionValueView::Other(j@),
        }
    }
}

/// The options of a request: a JSON object.
#[derive(Debug, Clone)]
pub struct CloudOptions {
    pub entries: StrMap<OptionValue>,
}

impl View for CloudOptions {
    type V = Map<Seq<char>, OptionValueView>;

    open spec fn view(&self) -> Map<Seq<char>, OptionValueView> {
        self.entries@
    }
}

/// The text under `key`, or empty text where the key has none or another kind of value.
pub open spec fn spec_text_field(m: Map<Seq<char>, OptionValueView>, key: Seq<char>) -> Seq<char> {
    if m.contains_key(key) {
        match m[key] {
            OptionValueView::Text(t) => t,
            _ => Seq::empty(),
        }
    } else {
        Seq::empty()
    }
}

/// The texts of a list's text elements, in order.
pub open spec fn item_texts(items: Seq<OptionItemView>) -> Seq<Seq<char>>
    decreases items.len(),
{
    if items.len() == 0 {
        Seq::empty()
    } else {
        let rest = item_texts(items.drop_last());
        match items.last() {
            OptionItemView::Text(t) => rest.push(t),
            OptionItemView::Other(_) => rest,
        }
    }
}

/// The text elements of the list under `key`, or none where the key has no list.
pub open spec fn spec_list_field(m: Map<Seq<char>, OptionValueView>, key: Seq<char>) -> Seq<Seq<char>> {
    if m.contains_key(key) {
        match m[key] {
            OptionValueView::List(items) => item_texts(items),
            _ => Seq::empty(),
        }
    } else {
        Seq::empty()
    }
}

/// A list value of text elements.
pub open spec fn text_list(texts: Seq<Seq<char>>) -> OptionValueView {
    OptionValueView::List(texts.map_values(|t: Seq<char>| OptionItemView::Text(t)))
}

impl CloudOptions {
    /// An empty object.
    pub fn empty() -> (o: CloudOptions)
        ensures
            o@ == Map::<Seq<char>, OptionValueView>::empty(),
    {
        CloudOptions { entries: StrMap::new() }
    }

    /// The text under `key`, as `get(key).and_then(as_str).unwrap_or("")` reads it.
    pub fn text_field(&self, key: &str) -> (r: String)
        ensures
            r@ == spec_text_field(self@, key@),
    {
        match self.entries.get(key) {
            Some(OptionValue::Text(t)) => t.clone(),
            _ => String::new(),
        }
    }

    /// The text elements of the list under `key`.
    pub fn list_field(&self, key: &str) -> (r: Vec<String>)
        ensures
            r@.map_values(|s: String| s@) == spec_list_field(self@, key@),
    {
        let mut r: Vec<String> = Vec::new();
        match self.entries.get(key) {
            Some(OptionValue::List(items)) => {
                let n = items.len();
                let ghost iv = items_view(items@);
                proof {
                    assert(iv.take(0) =~= Seq::<OptionItemView>::empty());
                }
                for i in 0..n
                    invariant
                        n == items@.len(),
                        iv == items_view(items@),
                        r@.map_values(|s: String| s@) == item_texts(iv.take(i as int)),
                {
                    let ghost before = r@.map_values(|s: String| s@);
                    proof {
                        assert(iv.take(i + 1).drop_last() =~= iv.take(i as int));
                        assert(iv.take(i + 1).last() == items@[i as int]@);
                    }
                    match &items[i] {
                        OptionItem::Text(t) => {
                            let tc = t.clone();
                            r.push(tc);
                            proof {
                                assert(r@.map_values(|s: String| s@) =~= before.push(t@));
                            }
                        },
                        OptionItem::Other(_) => {},
                    }
                }
                proof {
                    assert(iv.take(n as int) =~= iv);
                }
                r
            },
            _ => r,
        }
    }

    /// Puts text under `key`.
    pub fn set_text(&mut self, key: &str, value: String)
        ensures
            final(self)@ == old(self)@.insert(key@, OptionValueView::Text(value@)),
    {
        self.entries.insert(crate::text::owned(key), OptionValue::Text(value));
    }

    /// Puts a list of texts under `key`.
    pub fn set_text_list(&mut self, key: &str, values: Vec<String>)
        ensures
            final(self)@ == old(self)@.insert(key@, text_list(values@.map_values(|s: String| s@))),
    {
        let mut items: Vec<OptionItem> = Vec::new();
        let n = values.len();
        for i in 0..n
            invariant
                n == values@.len(),
                items_view(items@) == values@.map_values(|s: String| s@).take(i as int).map_values(
                    |t: Seq<char>| OptionItemView::Text(t),
                ),
        {
            let ghost before = items_view(items@);
            let ghost texts = values@.map_values(|s: String| s@);
            let v = values[i].clone();
            items.push(OptionItem::Text(v));
            proof {
                assert(texts[i as int] == v@);
                assert(items_view(items@) =~= before.push(OptionItemView::Text(v@)));
                assert(texts.take(i + 1) =~= texts.take(i as int).push(v@));
                assert(items_view(items@) =~= texts.take(i + 1).map_values(
                    |t: Seq<char>| OptionItemView::Text(t),
                ));
            }
        }
        proof {
            assert(values@.map_values(|s: String| s@).take(n as int) =~= values@.map_values(|s: String| s@));
        }
        self.entries.insert(crate::text::owned(key), OptionValue::List(items));
    }
}

} // verus!
