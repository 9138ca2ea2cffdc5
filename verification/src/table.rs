pub mod user;
pub mod user_pass;

use vstd::prelude::*;

verus! {

/// A value bound to one column of a parameterized statement.
#[derive(Clone, PartialEq, Eq, Debug)]
pub enum SqlValue {
    Int(i64),
    Text(String),
    Blob(Vec<u8>),
}

/// The mathematical content of a bound value.
pub enum SqlData {
    Int(int),
    Text(Seq<char>),
    Blob(Seq<u8>),
}

impl View for SqlValue {
    type V = SqlData;

    open spec fn view(&self) -> SqlData {
        match self {
            SqlValue::Int(v) => SqlData::Int(*v as int),
            SqlValue::Text(s) => SqlData::Text(s@),
            SqlValue::Blob(b) => SqlData::Blob(b@),
        }
    }
}

/// One field of a record, as the binder sees it: bound always, bound only
/// when set, or never bound.
#[derive(Clone, PartialEq, Eq, Debug)]
pub enum FieldSlot {
    /// A plain field, always bound.
    Required(SqlValue),
    /// An optional field, bound only when set.
    Optional(Option<SqlValue>),
    /// A zero-size marker field, never bound.
    Marker,
}

/// A record field in the registry: its column name and its slot.
#[derive(Clone, PartialEq, Eq, Debug)]
pub struct FieldDesc {
    pub name: String,
    pub slot: FieldSlot,
}

/// Whether a slot contributes a binding.
pub open spec fn slot_emits(s: FieldSlot) -> bool {
    match s {
        FieldSlot::Required(_) => true,
        FieldSlot::Optional(o) => o is Some,
        FieldSlot::Marker => false,
    }
}

/// The value a slot contributes, where it contributes one.
pub open spec fn slot_data(s: FieldSlot) -> SqlData {
    match s {
        FieldSlot::Required(v) => v@,
        FieldSlot::Optional(o) => if o is Some {
            o->0@
        } else {
            SqlData::Int(0)
        },
        FieldSlot::Marker => SqlData::Int(0),
    }
}

/// The column names that a field registry binds, in declaration order:
/// every required field, each optional field that is set, no marker.
pub open spec fn emitted_names(fs: Seq<FieldDesc>) -> Seq<Seq<char>>
    decreases fs.len(),
{
    if fs.len() == 0 {
        Seq::empty()
    } else if slot_emits(fs.last().slot) {
        emitted_names(fs.drop_last()).push(fs.last().name@)
    } else {
        emitted_names(fs.drop_last())
    }
}

/// The values that a field registry binds, in the same order.
pub open spec fn emitted_data(fs: Seq<FieldDesc>) -> Seq<SqlData>
    decreases fs.len(),
{
    if fs.len() == 0 {
        Seq::empty()
    } else if slot_emits(fs.last().slot) {
        emitted_data(fs.drop_last()).push(slot_data(fs.last().slot))
    } else {
        emitted_data(fs.drop_last())
    }
}

/// The generic binder: walks a record's field registry in declaration
/// order and produces the bound column names and, in lock step, the bound
/// values.
pub fn bind_fields(fields: Vec<FieldDesc>) -> (r: (Vec<String>, Vec<SqlValue>))
    ensures
        r.0@.map_values(|s: String| s@) == emitted_names(fields@),
        r.1@.map_values(|v: SqlValue| v@) == emitted_data(fields@),
{
    let ghost all = fields@;
    let mut rest = fields;
    let mut names: Vec<String> = Vec::new();
    let mut values: Vec<SqlValue> = Vec::new();
    while rest.len() > 0
        invariant
            rest@.len() <= all.len(),
            rest@ == all.subrange(all.len() - rest@.len(), all.len() as int),
            names@.map_values(|s: String| s@) == emitted_names(
                all.subrange(0, all.len() - rest@.len()),
            ),
            values@.map_values(|v: SqlValue| v@) == emitted_data(
                all.subrange(0, all.len() - rest@.len()),
            ),
        decreases rest@.len(),
    {
        let ghost done = all.len() - rest@.len();
        let f = rest.remove(0);
        proof {
            assert(f == all[done]);
            assert(rest@ =~= all.subrange(done + 1, all.len() as int));
            assert(all.subrange(0, done + 1).drop_last() =~= all.subrange(0, done));
            assert(all.subrange(0, done + 1).last() == all[done]);
        }
        let ghost old_names = names@;
        let ghost old_values = values@;
        match f.slot {
            FieldSlot::Required(v) => {
                names.push(f.name);
                values.push(v);
            },
            FieldSlot::Optional(o) => {
                match o {
                    Some(v) => {
                        names.push(f.name);
                        values.push(v);
                    },
                    None => {},
                }
            },
            FieldSlot::Marker => {},
        }
        proof {
            assert(names@.map_values(|s: String| s@) =~= emitted_names(
                all.subrange(0, done + 1),
            ));
            assert(values@.map_values(|v: SqlValue| v@) =~= emitted_data(
                all.subrange(0, done + 1),
            ));
        }
    }
    proof {
        assert(all.subrange(0, all.len() as int) =~= all);
    }
    (names, values)
}

/// Law: the bound names and the bound values stay in lock step, and a
/// registry never binds more entries than it has fields.
pub proof fn lemma_bound_lists_lock_step(fs: Seq<FieldDesc>)
    ensures
        emitted_names(fs).len() == emitted_data(fs).len(),
        emitted_names(fs).len() <= fs.len(),
    decreases fs.len(),
{
    if fs.len() > 0 {
        lemma_bound_lists_lock_step(fs.drop_last());
    }
}

/// Law: a field that contributes no binding (an unset optional field, or
/// a marker) leaves both bound lists exactly as if the field were absent;
/// in particular its column name is excluded and the other entries keep
/// their declared order.
pub proof fn lemma_unbound_field_skipped(fs: Seq<FieldDesc>, j: int)
    requires
        0 <= j < fs.len(),
        !slot_emits(fs[j].slot),
    ensures
        emitted_names(fs) == emitted_names(fs.remove(j)),
        emitted_data(fs) == emitted_data(fs.remove(j)),
    decreases fs.len(),
{
    if j == fs.len() - 1 {
        assert(fs.remove(j) =~= fs.drop_last());
    } else {
        lemma_unbound_field_skipped(fs.drop_last(), j);
        assert(fs.remove(j).drop_last() =~= fs.drop_last().remove(j));
        assert(fs.remove(j).last() == fs.last());
    }
}

/// Any type which implements this trait can be stored in the database: it
/// names its table and its columns. The statement that creates the schema
/// belongs to the storage layer around the library.
pub trait Table {
    /// The table name of the type in the database.
    spec fn spec_table_name() -> Seq<char>;

    /// The names of the columns in the database, in order.
    spec fn spec_column_names() -> Seq<Seq<char>>;

    /// Returns the table name of the type in the database.
    fn table_name() -> (r: String)
        ensures
            r@ == Self::spec_table_name(),
    ;

    /// Returns the names of the columns in the database.
    fn column_names() -> (r: Vec<String>)
        ensures
            r@.map_values(|s: String| s@) == Self::spec_column_names(),
    ;
}

/// An ordered (column name, value) projection of a record for a
/// parameterized statement: a field typed as optional contributes its
/// name and value only when set, a zero-size marker field never, every
/// other field always, in declaration order.
pub trait BindValues {
    /// The column names this record binds, in declaration order.
    spec fn spec_bound_names(&self) -> Seq<Seq<char>>;

    /// The values this record binds, in the same order.
    spec fn spec_bound_data(&self) -> Seq<SqlData>;

    /// The two lists stay in lock step.
    proof fn bound_lists_lock_step(&self)
        ensures
            self.spec_bound_names().len() == self.spec_bound_data().len(),
    ;

    /// Returns the names of the bound columns.
    fn bound_values(&self) -> (r: Vec<String>)
        ensures
            r@.map_values(|s: String| s@) == self.spec_bound_names(),
    ;

    /// Returns the values to attach, in the order of the bound columns.
    fn bind_values(&self) -> (r: Vec<SqlValue>)
        ensures
            r@.map_values(|v: SqlValue| v@) == self.spec_bound_data(),
    ;
}

/// A persisted entity together with its companion argument shapes: the
/// fields required to create a row, and the all-optional partial-match
/// filter.
pub trait Queryable: BindValues + Table {
    type CreateArgs: BindValues;

    type QueryArgs: BindValues;
}

} // verus!
