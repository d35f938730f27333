//! A table of named fields: the plainest task there is.
//!
//! A task declares its fields once, each with a first value. A write reaches a
//! field only under the field's name and with a payload of the kind that the
//! field holds; any other write changes nothing. A read gives a copy of the
//! field's value. Tasks with work of their own keep such a table for the fields
//! they share with their owner.

use crate::payload::{view_of, Payload, PayloadView};
use crate::threading::AutoThread;
use vstd::hash_map::StringHashMap;
use vstd::prelude::*;

verus! {

/// Whether two payloads are of the same kind.
pub open spec fn same_kind(a: PayloadView, b: PayloadView) -> bool {
    a.kind() == b.kind()
}

/// Whether two payloads are of the same kind.
pub fn is_same_kind(a: &Payload, b: &Payload) -> (same: bool)
    ensures
        same == same_kind(a@, b@),
{
    a.kind() == b.kind()
}

/// The fields after a write of `value` under the name `key`: the field takes the
/// value where it exists and holds a value of that type, else nothing changes.
pub open spec fn fields_after_set(
    fields: Map<Seq<char>, PayloadView>,
    key: Seq<char>,
    value: PayloadView,
) -> Map<Seq<char>, PayloadView> {
    if fields.contains_key(key) && same_kind(fields[key], value) {
        fields.insert(key, value)
    } else {
        fields
    }
}

/// What a read under the name `key` gives: the field's value, or `None` where
/// there is no such field.
pub open spec fn field_of(fields: Map<Seq<char>, PayloadView>, key: Seq<char>) -> Option<PayloadView> {
    if fields.contains_key(key) {
        Some(fields[key])
    } else {
        None
    }
}

/// Named fields with their values.
pub struct FieldTable {
    fields: StringHashMap<Payload>,
}

impl View for FieldTable {
    type V = Map<Seq<char>, PayloadView>;

    closed spec fn view(&self) -> Map<Seq<char>, PayloadView> {
        self.fields@.map_values(|p: Payload| p@)
    }
}

impl FieldTable {
    /// A table without fields.
    pub fn new() -> (table: Self)
        ensures
            table@ == Map::<Seq<char>, PayloadView>::empty(),
    {
        let table = FieldTable { fields: StringHashMap::new() };
        assert(table.fields@.map_values(|p: Payload| p@) =~= Map::<Seq<char>, PayloadView>::empty());
        table
    }

    /// Declares the field `name` with its first value, which also fixes the type
    /// of the values that the field holds. A field of that name declared before
    /// is replaced.
    pub fn declare(&mut self, name: &str, first: Payload)
        ensures
            final(self)@ == old(self)@.insert(name@, first@),
    {
        self.fields.insert(name.to_owned(), first);
        assert(self.fields@.map_values(|p: Payload| p@) =~= old(self).fields@.map_values(|p: Payload| p@).insert(
            name@,
            first@,
        ));
    }

    /// Writes `value` to the field `key` where the table has such a field and it
    /// holds a value of that type. Returns whether the write took place.
    pub fn auto_set_field(&mut self, key: &str, value: Payload) -> (written: bool)
        ensures
            final(self)@ == fields_after_set(old(self)@, key@, value@),
            written == (old(self)@.contains_key(key@) && same_kind(old(self)@[key@], value@)),
    {
        let fits: bool = match self.fields.get(key) {
            Some(present) => is_same_kind(present, &value),
            None => false,
        };
        if fits {
            self.fields.insert(key.to_owned(), value);
            assert(self.fields@.map_values(|p: Payload| p@) =~= old(self).fields@.map_values(|p: Payload| p@).insert(
                key@,
                value@,
            ));
        }
        fits
    }

    /// A copy of the value of the field `key`, or `None` where the table has no
    /// such field.
    pub fn auto_get_field(&self, key: &str) -> (value: Option<Payload>)
        ensures
            view_of(value) == field_of(self@, key@),
    {
        match self.fields.get(key) {
            Some(present) => Some(present.clone()),
            None => None,
        }
    }
}

impl AutoThread for FieldTable {
    type Model = Map<Seq<char>, PayloadView>;

    open spec fn modeled() -> bool {
        true
    }

    open spec fn model(&self) -> Map<Seq<char>, PayloadView> {
        self@
    }

    open spec fn model_after_run(m: Map<Seq<char>, PayloadView>) -> Map<Seq<char>, PayloadView> {
        m
    }

    open spec fn model_after_set(
        m: Map<Seq<char>, PayloadView>,
        field: Seq<char>,
        value: PayloadView,
    ) -> Map<Seq<char>, PayloadView> {
        fields_after_set(m, field, value)
    }

    open spec fn model_field(m: Map<Seq<char>, PayloadView>, field: Seq<char>) -> Option<PayloadView> {
        field_of(m, field)
    }

    /// A table has no work of its own.
    fn run(&mut self) {
    }

    fn handle_field_set(&mut self, field: &str, value: Payload) {
        let _ = self.auto_set_field(field, value);
    }

    fn handle_field_get(&self, field: &str) -> (value: Option<Payload>) {
        self.auto_get_field(field)
    }
}

} // verus!
