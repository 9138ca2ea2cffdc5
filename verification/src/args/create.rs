use vstd::prelude::*;

use crate::codec::{encode_session_pass, encode_time_pass, spec_encode_session_pass,
    spec_encode_time_pass};
use crate::email::EmailAddr;
use crate::pass::{session::SessionPass, time::TimePass};
use crate::table::{
    bind_fields, emitted_data, emitted_names, BindValues, FieldDesc, FieldSlot, SqlData, SqlValue,
};
use crate::user::{password::PasswordHash, permissions::Permissions, PassId, PhoneNumber, UserId};

verus! {

/// The type expected when creating a user: the identity is optional and
/// typically auto-assigned by the store.
#[derive(Clone)]
pub struct CreateUser {
    pub id: Option<UserId>,
    pub username: String,
    pub email: EmailAddr,
    pub number: Option<PhoneNumber>,
    pub password: PasswordHash,
    pub permissions: Permissions,
}

impl CreateUser {
    /// The field registry of the create shape, in declaration order.
    fn fields(&self) -> (r: Vec<FieldDesc>)
        ensures
            emitted_names(r@) == self.spec_bound_names(),
            emitted_data(r@) == self.spec_bound_data(),
    {
        let mut fields: Vec<FieldDesc> = Vec::new();
        fields.push(
            FieldDesc {
                name: "id".to_owned(),
                slot: FieldSlot::Optional(
                    match &self.id {
                        Some(v) => Some(SqlValue::Int(*v as i64)),
                        None => None,
                    },
                ),
            },
        );
        fields.push(
            FieldDesc {
                name: "username".to_owned(),
                slot: FieldSlot::Required(SqlValue::Text(self.username.as_str().to_owned())),
            },
        );
        fields.push(
            FieldDesc {
                name: "email".to_owned(),
                slot: FieldSlot::Required(SqlValue::Text(self.email.as_ref().to_owned())),
            },
        );
        fields.push(
            FieldDesc {
                name: "number".to_owned(),
                slot: FieldSlot::Optional(
                    match &self.number {
                        Some(n) => Some(SqlValue::Int(*n)),
                        None => None,
                    },
                ),
            },
        );
        fields.push(
            FieldDesc {
                name: "password".to_owned(),
                slot: FieldSlot::Required(SqlValue::Text(self.password.as_ref().to_owned())),
            },
        );
        fields.push(
            FieldDesc {
                name: "permissions".to_owned(),
                slot: FieldSlot::Required(SqlValue::Int(self.permissions.bits as i64)),
            },
        );
        proof {
            reveal_with_fuel(emitted_names, 8);
            reveal_with_fuel(emitted_data, 8);
            let fs = fields@;
            assert(fs.drop_last() =~= fs.subrange(0, 5));
            assert(fs.subrange(0, 5).drop_last() =~= fs.subrange(0, 4));
            assert(fs.subrange(0, 4).drop_last() =~= fs.subrange(0, 3));
            assert(fs.subrange(0, 3).drop_last() =~= fs.subrange(0, 2));
            assert(fs.subrange(0, 2).drop_last() =~= fs.subrange(0, 1));
            assert(fs.subrange(0, 1).drop_last() =~= fs.subrange(0, 0));
            assert(emitted_names(fs) =~= self.spec_bound_names());
            assert(emitted_data(fs) =~= self.spec_bound_data());
        }
        fields
    }
}

impl BindValues for CreateUser {
    open spec fn spec_bound_names(&self) -> Seq<Seq<char>> {
        (if self.id is Some {
            seq!["id"@]
        } else {
            Seq::empty()
        }) + seq!["username"@, "email"@] + (if self.number is Some {
            seq!["number"@]
        } else {
            Seq::empty()
        }) + seq!["password"@, "permissions"@]
    }

    open spec fn spec_bound_data(&self) -> Seq<SqlData> {
        (if self.id is Some {
            seq![SqlData::Int(self.id->0 as int)]
        } else {
            Seq::empty()
        }) + seq![SqlData::Text(self.username@), SqlData::Text(self.email@)] + (if self.number
            is Some {
            seq![SqlData::Int(self.number->0 as int)]
        } else {
            Seq::empty()
        }) + seq![SqlData::Text(self.password@), SqlData::Int(self.permissions.bits as int)]
    }

    proof fn bound_lists_lock_step(&self) {
    }

    fn bound_values(&self) -> (r: Vec<String>) {
        let bound = bind_fields(self.fields());
        bound.0
    }

    fn bind_values(&self) -> (r: Vec<SqlValue>) {
        let bound = bind_fields(self.fields());
        bound.1
    }
}

/// The type expected when creating a user pass.
#[derive(Clone, Copy, PartialEq, Eq, Structural, Debug)]
pub struct CreateUserPass {
    pub id: Option<PassId>,
    pub user_id: UserId,
    pub time_pass: TimePass,
    pub session_pass: SessionPass,
}

impl CreateUserPass {
    /// The field registry of the create shape, in declaration order.
    fn fields(&self) -> (r: Vec<FieldDesc>)
        ensures
            emitted_names(r@) == self.spec_bound_names(),
            emitted_data(r@) == self.spec_bound_data(),
    {
        let mut fields: Vec<FieldDesc> = Vec::new();
        fields.push(
            FieldDesc {
                name: "id".to_owned(),
                slot: FieldSlot::Optional(
                    match &self.id {
                        Some(v) => Some(SqlValue::Int(*v)),
                        None => None,
                    },
                ),
            },
        );
        fields.push(
            FieldDesc {
                name: "user_id".to_owned(),
                slot: FieldSlot::Required(SqlValue::Int(self.user_id as i64)),
            },
        );
        fields.push(
            FieldDesc {
                name: "time_pass".to_owned(),
                slot: FieldSlot::Required(SqlValue::Blob(encode_time_pass(&self.time_pass))),
            },
        );
        fields.push(
            FieldDesc {
                name: "session_pass".to_owned(),
                slot: FieldSlot::Required(SqlValue::Blob(encode_session_pass(&self.session_pass))),
            },
        );
        proof {
            reveal_with_fuel(emitted_names, 6);
            reveal_with_fuel(emitted_data, 6);
            let fs = fields@;
            assert(fs.drop_last() =~= fs.subrange(0, 3));
            assert(fs.subrange(0, 3).drop_last() =~= fs.subrange(0, 2));
            assert(fs.subrange(0, 2).drop_last() =~= fs.subrange(0, 1));
            assert(fs.subrange(0, 1).drop_last() =~= fs.subrange(0, 0));
            assert(emitted_names(fs) =~= self.spec_bound_names());
            assert(emitted_data(fs) =~= self.spec_bound_data());
        }
        fields
    }
}

impl BindValues for CreateUserPass {
    open spec fn spec_bound_names(&self) -> Seq<Seq<char>> {
        (if self.id is Some {
            seq!["id"@]
        } else {
            Seq::empty()
        }) + seq!["user_id"@, "time_pass"@, "session_pass"@]
    }

    open spec fn spec_bound_data(&self) -> Seq<SqlData> {
        (if self.id is Some {
            seq![SqlData::Int(self.id->0 as int)]
        } else {
            Seq::empty()
        }) + seq![
            SqlData::Int(self.user_id as int),
            SqlData::Blob(spec_encode_time_pass(self.time_pass)),
            SqlData::Blob(spec_encode_session_pass(self.session_pass)),
        ]
    }

    proof fn bound_lists_lock_step(&self) {
    }

    fn bound_values(&self) -> (r: Vec<String>) {
        let bound = bind_fields(self.fields());
        bound.0
    }

    fn bind_values(&self) -> (r: Vec<SqlValue>) {
        let bound = bind_fields(self.fields());
        bound.1
    }
}

} // verus!
