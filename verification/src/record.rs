//! Records: the shape in which a value travels to and from an encoding.
//!
//! A record has a name and a list of named fields, in the order in which they
//! stand in the encoding. Nothing here depends on a format.

use vstd::prelude::*;

verus! {

/// One field of a record: its name, and what it carries.
#[derive(Debug)]
pub struct Entry<'a, V> {
    pub key: &'a str,
    pub value: V,
}

/// A named list of fields.
#[derive(Debug)]
pub struct Record<'a, V> {
    pub name: &'a str,
    pub fields: Vec<Entry<'a, V>>,
}

/// A record as a mathematical value: its name, and its fields in order, each
/// as a pair of its name and what it carries.
pub struct RecordView<V> {
    pub name: Seq<char>,
    pub fields: Seq<(Seq<char>, V)>,
}

impl<'a, V> View for Entry<'a, V> {
    type V = (Seq<char>, V);

    open spec fn view(&self) -> (Seq<char>, V) {
        (self.key@, self.value)
    }
}

impl<'a, V> View for Record<'a, V> {
    type V = RecordView<V>;

    open spec fn view(&self) -> RecordView<V> {
        RecordView { name: self.name@, fields: self.fields@.map_values(|e: Entry<'a, V>| e@) }
    }
}

impl<'a, V> Record<'a, V> {
    /// The record called `name` whose only field is `key`, carrying `value`.
    pub fn single(name: &'a str, key: &'a str, value: V) -> (r: Record<'a, V>)
        ensures
            r@ == (RecordView { name: name@, fields: seq![(key@, value)] }),
    {
        let mut fields: Vec<Entry<'a, V>> = Vec::new();
        fields.push(Entry { key, value });
        let r = Record { name, fields };
        assert(r@.fields =~= seq![(key@, value)]);
        r
    }
}

} // verus!
