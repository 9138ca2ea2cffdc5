use vstd::prelude::*;

use super::{
    bind_fields, emitted_data, emitted_names, BindValues, FieldDesc, FieldSlot, Queryable,
    SqlData, SqlValue, Table,
};
use crate::args::create::CreateUser;
use crate::args::query::QueryUser;
use crate::user::User;

verus! {

impl Queryable for User {
    type CreateArgs = CreateUser;

    type QueryArgs = QueryUser;
}

impl Table for User {
    open spec fn spec_table_name() -> Seq<char> {
        "user"@
    }

    /// Every column of the user table's schema, in its declared order.
    open spec fn spec_column_names() -> Seq<Seq<char>> {
        seq!["id"@, "username"@, "number"@, "email"@, "permissions"@, "password"@]
    }

    fn table_name() -> (r: String) {
        "user".to_owned()
    }

    fn column_names() -> (r: Vec<String>) {
        let mut v: Vec<String> = Vec::new();
        v.push("id".to_owned());
        v.push("username".to_owned());
        v.push("number".to_owned());
        v.push("email".to_owned());
        v.push("permissions".to_owned());
        v.push("password".to_owned());
        proof {
            assert(v@.map_values(|s: String| s@) =~= Self::spec_column_names());
        }
        v
    }
}

impl User {
    /// The field registry of a user record, in declaration order.
    fn fields(&self) -> (r: Vec<FieldDesc>)
        ensures
            emitted_names(r@) == self.spec_bound_names(),
            emitted_data(r@) == self.spec_bound_data(),
    {
        let mut fields: Vec<FieldDesc> = Vec::new();
        fields.push(
            FieldDesc {
                name: "id".to_owned(),
                slot: FieldSlot::Required(SqlValue::Int(self.id as i64)),
            },
        );
        fields.push(
            FieldDesc {
                name: "username".to_owned(),
                slot: FieldSlot::Required(SqlValue::Text(self.username.as_str().to_owned())),
            },
        );
        fields.push(
            FieldDesc {
                name: "email".to_owned(),
                slot: FieldSlot::Required(SqlValue::Text(self.email.as_ref().to_owned())),
            },
        );
        fields.push(
            FieldDesc {
                name: "number".to_owned(),
                slot: FieldSlot::Optional(
                    match &self.number {
                        Some(n) => Some(SqlValue::Int(*n)),
                        None => None,
                    },
                ),
            },
        );
        fields.push(
            FieldDesc {
                name: "password".to_owned(),
                slot: FieldSlot::Required(SqlValue::Text(self.password.as_ref().to_owned())),
            },
        );
        fields.push(
            FieldDesc {
                name: "permissions".to_owned(),
                slot: FieldSlot::Required(SqlValue::Int(self.permissions.bits as i64)),
            },
        );
        proof {
            reveal_with_fuel(emitted_names, 8);
            reveal_with_fuel(emitted_data, 8);
            let fs = fields@;
            assert(fs.drop_last() =~= fs.subrange(0, 5));
            assert(fs.subrange(0, 5).drop_last() =~= fs.subrange(0, 4));
            assert(fs.subrange(0, 4).drop_last() =~= fs.subrange(0, 3));
            assert(fs.subrange(0, 3).drop_last() =~= fs.subrange(0, 2));
            assert(fs.subrange(0, 2).drop_last() =~= fs.subrange(0, 1));
            assert(fs.subrange(0, 1).drop_last() =~= fs.subrange(0, 0));
            assert(emitted_names(fs) =~= self.spec_bound_names());
            assert(emitted_data(fs) =~= self.spec_bound_data());
        }
        fields
    }
}

impl BindValues for User {
    /// Every column of the record in declaration order, except the phone
    /// number when unset.
    open spec fn spec_bound_names(&self) -> Seq<Seq<char>> {
        seq!["id"@, "username"@, "email"@] + (if self.number is Some {
            seq!["number"@]
        } else {
            Seq::empty()
        }) + seq!["password"@, "permissions"@]
    }

    open spec fn spec_bound_data(&self) -> Seq<SqlData> {
        seq![
            SqlData::Int(self.id as int),
            SqlData::Text(self.username@),
            SqlData::Text(self.email@),
        ] + (if self.number is Some {
            seq![SqlData::Int(self.number->0 as int)]
        } else {
            Seq::empty()
        }) + seq![SqlData::Text(self.password@), SqlData::Int(self.permissions.bits as int)]
    }

    proof fn bound_lists_lock_step(&self) {
    }

    fn bound_values(&self) -> (r: Vec<String>) {
        let bound = bind_fields(self.fields());
        bound.0
    }

    fn bind_values(&self) -> (r: Vec<SqlValue>) {
        let bound = bind_fields(self.fields());
        bound.1
    }
}

} // verus!
