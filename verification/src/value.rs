//! The configuration document as a tree of plain values.

use vstd::prelude::*;

verus! {

/// A node of a configuration document.
///
/// A mapping keeps its entries in the order in which the document gives them.
#[derive(Debug, PartialEq, Eq)]
pub enum ConfigValue {
    /// The absent value.
    Null,
    /// A truth value.
    Boolean(bool),
    /// A string scalar.
    Text(String),
    /// Any other scalar (a number, for one), as it was written.
    Scalar(String),
    /// A list of nodes.
    Sequence(Vec<ConfigValue>),
    /// Key and value pairs, in document order.
    Mapping(Vec<(ConfigValue, ConfigValue)>),
}

/// The mathematical model of a [`ConfigValue`].
pub ghost enum ValueView {
    Null,
    Boolean(bool),
    Text(Seq<char>),
    Scalar(Seq<char>),
    Sequence(Seq<ValueView>),
    Mapping(Seq<(ValueView, ValueView)>),
}

impl View for ConfigValue {
    type V = ValueView;

    open spec fn view(&self) -> ValueView
        decreases self,
    {
        match self {
            ConfigValue::Null => ValueView::Null,
            ConfigValue::Boolean(b) => ValueView::Boolean(*b),
            ConfigValue::Text(s) => ValueView::Text(s@),
            ConfigValue::Scalar(s) => ValueView::Scalar(s@),
            ConfigValue::Sequence(items) => ValueView::Sequence(items_view(items@)),
            ConfigValue::Mapping(entries) => ValueView::Mapping(entries_view(entries@)),
        }
    }
}

/// The models of a sequence's items, in document order.
pub open spec fn items_view(items: Seq<ConfigValue>) -> Seq<ValueView>
    decreases items,
{
    if items.len() == 0 {
        Seq::empty()
    } else {
        items_view(items.drop_last()).push(items.last()@)
    }
}

/// The models of a mapping's entries, in document order.
pub open spec fn entries_view(entries: Seq<(ConfigValue, ConfigValue)>) -> Seq<
    (ValueView, ValueView),
>
    decreases entries,
{
    if entries.len() == 0 {
        Seq::empty()
    } else {
        entries_view(entries.drop_last()).push((entries.last().0@, entries.last().1@))
    }
}

/// The model of a list of entries has, at each position, the models of the key and the value
/// that the list has there.
pub proof fn lemma_entries_view(entries: Seq<(ConfigValue, ConfigValue)>)
    ensures
        entries_view(entries).len() == entries.len(),
        forall|i: int|
            0 <= i < entries.len() ==> #[trigger] entries_view(entries)[i] == (
                entries[i].0@,
                entries[i].1@,
            ),
    decreases entries.len(),
{
    reveal_with_fuel(entries_view, 2);
    if entries.len() > 0 {
        lemma_entries_view(entries.drop_last());
    }
}

/// The value under the first key of `entries` that is the string `name`, if there is one.
///
/// Only a string key can be the one: a key of another kind is never `name`, whatever it
/// looks like when written out.
pub open spec fn value_at(entries: Seq<(ValueView, ValueView)>, name: Seq<char>) -> Option<
    ValueView,
>
    decreases entries.len(),
{
    if entries.len() == 0 {
        None
    } else if entries.first().0 == ValueView::Text(name) {
        Some(entries.first().1)
    } else {
        value_at(entries.drop_first(), name)
    }
}

impl ValueView {
    /// The value that a mapping holds under the string key `name`; `None` where the node is
    /// no mapping or has no such key.
    pub open spec fn get(self, name: Seq<char>) -> Option<ValueView> {
        match self {
            ValueView::Mapping(entries) => value_at(entries, name),
            _ => None,
        }
    }
}

impl ConfigValue {
    /// The value that a mapping holds under the string key `name`; `None` where the node is
    /// no mapping or has no such key.
    pub fn get(&self, name: &String) -> (value: Option<&ConfigValue>)
        ensures
            match value {
                Some(found) => self@.get(name@) == Some(found@),
                None => self@.get(name@) is None,
            },
    {
        let entries = match self.as_mapping() {
            Some(entries) => entries,
            None => {
                return None;
            },
        };
        let ghost all = entries_view(entries@);
        proof {
            lemma_entries_view(entries@);
            assert(all.skip(0) == all);
        }
        let mut i: usize = 0;
        while i < entries.len()
            invariant
                i <= entries.len(),
                all == entries_view(entries@),
                self@.get(name@) == value_at(all.skip(i as int), name@),
            decreases entries.len() - i,
        {
            let entry = &entries[i];
            proof {
                lemma_entries_view(entries@);
                let rest = all.skip(i as int);
                assert(rest.first() == all[i as int]);
                assert(rest.drop_first() == all.skip(i + 1));
            }
            if let Some(key) = entry.0.as_text() {
                if *key == *name {
                    return Some(&entry.1);
                }
            }
            i += 1;
        }
        None
    }

    /// The entries of a mapping; `None` for any other node.
    pub fn as_mapping(&self) -> (entries: Option<&Vec<(ConfigValue, ConfigValue)>>)
        ensures
            match entries {
                Some(found) => *self == ConfigValue::Mapping(*found),
                None => !(self is Mapping),
            },
    {
        match self {
            ConfigValue::Mapping(entries) => Some(entries),
            _ => None,
        }
    }

    /// The string of a string scalar; `None` for any other node.
    pub fn as_text(&self) -> (text: Option<&String>)
        ensures
            match text {
                Some(found) => *self == ConfigValue::Text(*found),
                None => !(self is Text),
            },
    {
        match self {
            ConfigValue::Text(text) => Some(text),
            _ => None,
        }
    }

    /// The truth value of a boolean scalar; `None` for any other node.
    pub fn as_boolean(&self) -> (value: Option<bool>)
        ensures
            match value {
                Some(found) => *self == ConfigValue::Boolean(found),
                None => !(self is Boolean),
            },
    {
        match self {
            ConfigValue::Boolean(value) => Some(*value),
            _ => None,
        }
    }
}

} // verus!
