use vstd::prelude::*;

use super::{
    bind_fields, emitted_data, emitted_names, BindValues, FieldDesc, FieldSlot, Queryable,
    SqlData, SqlValue, Table,
};
use crate::codec::{encode_session_pass, encode_time_pass, spec_encode_session_pass,
    spec_encode_time_pass};
use crate::args::create::CreateUserPass;
use crate::args::query::QueryUserPass;
use crate::pass::UserPass;

verus! {

impl Queryable for UserPass {
    type CreateArgs = CreateUserPass;

    type QueryArgs = QueryUserPass;
}

impl Table for UserPass {
    open spec fn spec_table_name() -> Seq<char> {
        "userpass"@
    }

    open spec fn spec_column_names() -> Seq<Seq<char>> {
        seq!["id"@, "user_id"@, "time_pass"@, "session_pass"@]
    }

    fn table_name() -> (r: String) {
        "userpass".to_owned()
    }

    fn column_names() -> (r: Vec<String>) {
        let mut v: Vec<String> = Vec::new();
        v.push("id".to_owned());
        v.push("user_id".to_owned());
        v.push("time_pass".to_owned());
        v.push("session_pass".to_owned());
        proof {
            assert(v@.map_values(|s: String| s@) =~= Self::spec_column_names());
        }
        v
    }
}

impl UserPass {
    /// The field registry of a pass row: the two pass blobs are the
    /// canonical fixed-width encodings, so the row round-trips through
    /// the same codec that the decision engine's state is read with.
    fn fields(&self) -> (r: Vec<FieldDesc>)
        ensures
            emitted_names(r@) == self.spec_bound_names(),
            emitted_data(r@) == self.spec_bound_data(),
    {
        let mut fields: Vec<FieldDesc> = Vec::new();
        fields.push(
            FieldDesc { name: "id".to_owned(), slot: FieldSlot::Required(SqlValue::Int(self.id)) },
        );
        fields.push(
            FieldDesc {
                name: "user_id".to_owned(),
                slot: FieldSlot::Required(SqlValue::Int(self.user_id as i64)),
            },
        );
        fields.push(
            FieldDesc {
                name: "time_pass".to_owned(),
                slot: FieldSlot::Required(SqlValue::Blob(encode_time_pass(&self.time_pass))),
            },
        );
        fields.push(
            FieldDesc {
                name: "session_pass".to_owned(),
                slot: FieldSlot::Required(SqlValue::Blob(encode_session_pass(&self.session_pass))),
            },
        );
        proof {
            reveal_with_fuel(emitted_names, 6);
            reveal_with_fuel(emitted_data, 6);
            let fs = fields@;
            assert(fs.drop_last() =~= fs.subrange(0, 3));
            assert(fs.subrange(0, 3).drop_last() =~= fs.subrange(0, 2));
            assert(fs.subrange(0, 2).drop_last() =~= fs.subrange(0, 1));
            assert(fs.subrange(0, 1).drop_last() =~= fs.subrange(0, 0));
            assert(emitted_names(fs) =~= self.spec_bound_names());
            assert(emitted_data(fs) =~= self.spec_bound_data());
        }
        fields
    }
}

impl BindValues for UserPass {
    open spec fn spec_bound_names(&self) -> Seq<Seq<char>> {
        seq!["id"@, "user_id"@, "time_pass"@, "session_pass"@]
    }

    open spec fn spec_bound_data(&self) -> Seq<SqlData> {
        seq![
            SqlData::Int(self.id as int),
            SqlData::Int(self.user_id as int),
            SqlData::Blob(spec_encode_time_pass(self.time_pass)),
            SqlData::Blob(spec_encode_session_pass(self.session_pass)),
        ]
    }

    proof fn bound_lists_lock_step(&self) {
    }

    fn bound_values(&self) -> (r: Vec<String>) {
        let bound = bind_fields(self.fields());
        bound.0
    }

    fn bind_values(&self) -> (r: Vec<SqlValue>) {
        let bound = bind_fields(self.fields());
        bound.1
    }
}

} // verus!
