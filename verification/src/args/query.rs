use vstd::prelude::*;

use crate::codec::{encode_session_pass, encode_time_pass, spec_encode_session_pass,
    spec_encode_time_pass};
use crate::email::EmailAddr;
use crate::pass::{session::SessionPass, time::TimePass};
use crate::table::{
    bind_fields, emitted_data, emitted_names, BindValues, FieldDesc, FieldSlot, SqlData, SqlValue,
};
use crate::user::{PassId, PhoneNumber, UserId};

verus! {

/// A partial-match filter over users: every field optional, only the set
/// ones constrain the query.
#[derive(Clone)]
pub struct QueryUser {
    pub id: Option<UserId>,
    pub username: Option<String>,
    pub email: Option<EmailAddr>,
    pub number: Option<PhoneNumber>,
}

impl Default for QueryUser {
    /// The empty filter: no field set, nothing bound.
    fn default() -> (r: Self)
        ensures
            r.id is None,
            r.username is None,
            r.email is None,
            r.number is None,
    {
        QueryUser { id: None, username: None, email: None, number: None }
    }
}

impl QueryUser {
    /// The field registry of the filter, in declaration order.
    fn fields(&self) -> (r: Vec<FieldDesc>)
        ensures
            emitted_names(r@) == self.spec_bound_names(),
            emitted_data(r@) == self.spec_bound_data(),
    {
        let mut fields: Vec<FieldDesc> = Vec::new();
        fields.push(
            FieldDesc {
                name: "id".to_owned(),
                slot: FieldSlot::Optional(
                    match &self.id {
                        Some(v) => Some(SqlValue::Int(*v as i64)),
                        None => None,
                    },
                ),
            },
        );
        fields.push(
            FieldDesc {
                name: "username".to_owned(),
                slot: FieldSlot::Optional(
                    match &self.username {
                        Some(s) => Some(SqlValue::Text(s.as_str().to_owned())),
                        None => None,
                    },
                ),
            },
        );
        fields.push(
            FieldDesc {
                name: "email".to_owned(),
                slot: FieldSlot::Optional(
                    match &self.email {
                        Some(e) => Some(SqlValue::Text(e.as_ref().to_owned())),
                        None => None,
                    },
                ),
            },
        );
        fields.push(
            FieldDesc {
                name: "number".to_owned(),
                slot: FieldSlot::Optional(
                    match &self.number {
                        Some(n) => Some(SqlValue::Int(*n)),
                        None => None,
                    },
                ),
            },
        );
        proof {
            reveal_with_fuel(emitted_names, 6);
            reveal_with_fuel(emitted_data, 6);
            let fs = fields@;
            assert(fs.drop_last() =~= fs.subrange(0, 3));
            assert(fs.subrange(0, 3).drop_last() =~= fs.subrange(0, 2));
            assert(fs.subrange(0, 2).drop_last() =~= fs.subrange(0, 1));
            assert(fs.subrange(0, 1).drop_last() =~= fs.subrange(0, 0));
            assert(emitted_names(fs) =~= self.spec_bound_names());
            assert(emitted_data(fs) =~= self.spec_bound_data());
        }
        fields
    }
}

impl BindValues for QueryUser {
    open spec fn spec_bound_names(&self) -> Seq<Seq<char>> {
        (if self.id is Some {
            seq!["id"@]
        } else {
            Seq::empty()
        }) + (if self.username is Some {
            seq!["username"@]
        } else {
            Seq::empty()
        }) + (if self.email is Some {
            seq!["email"@]
        } else {
            Seq::empty()
        }) + (if self.number is Some {
            seq!["number"@]
        } else {
            Seq::empty()
        })
    }

    open spec fn spec_bound_data(&self) -> Seq<SqlData> {
        (if self.id is Some {
            seq![SqlData::Int(self.id->0 as int)]
        } else {
            Seq::empty()
        }) + (if self.username is Some {
            seq![SqlData::Text(self.username->0@)]
        } else {
            Seq::empty()
        }) + (if self.email is Some {
            seq![SqlData::Text(self.email->0@)]
        } else {
            Seq::empty()
        }) + (if self.number is Some {
            seq![SqlData::Int(self.number->0 as int)]
        } else {
            Seq::empty()
        })
    }

    proof fn bound_lists_lock_step(&self) {
    }

    fn bound_values(&self) -> (r: Vec<String>) {
        let bound = bind_fields(self.fields());
        bound.0
    }

    fn bind_values(&self) -> (r: Vec<SqlValue>) {
        let bound = bind_fields(self.fields());
        bound.1
    }
}

/// A partial-match filter over user passes.
#[derive(Clone, Copy, PartialEq, Eq, Structural, Debug)]
pub struct QueryUserPass {
    pub id: Option<PassId>,
    pub user_id: Option<UserId>,
    pub time_pass: Option<TimePass>,
    pub session_pass: Option<SessionPass>,
}

impl Default for QueryUserPass {
    /// The empty filter: no field set, nothing bound.
    fn default() -> (r: Self)
        ensures
            r == (QueryUserPass { id: None, user_id: None, time_pass: None, session_pass: None }),
    {
        QueryUserPass { id: None, user_id: None, time_pass: None, session_pass: None }
    }
}

impl QueryUserPass {
    /// The field registry of the filter, in declaration order.
    fn fields(&self) -> (r: Vec<FieldDesc>)
        ensures
            emitted_names(r@) == self.spec_bound_names(),
            emitted_data(r@) == self.spec_bound_data(),
    {
        let mut fields: Vec<FieldDesc> = Vec::new();
        fields.push(
            FieldDesc {
                name: "id".to_owned(),
                slot: FieldSlot::Optional(
                    match &self.id {
                        Some(v) => Some(SqlValue::Int(*v)),
                        None => None,
                    },
                ),
            },
        );
        fields.push(
            FieldDesc {
                name: "user_id".to_owned(),
                slot: FieldSlot::Optional(
                    match &self.user_id {
                        Some(v) => Some(SqlValue::Int(*v as i64)),
                        None => None,
                    },
                ),
            },
        );
        fields.push(
            FieldDesc {
                name: "time_pass".to_owned(),
                slot: FieldSlot::Optional(
                    match &self.time_pass {
                        Some(tp) => Some(SqlValue::Blob(encode_time_pass(tp))),
                        None => None,
                    },
                ),
            },
        );
        fields.push(
            FieldDesc {
                name: "session_pass".to_owned(),
                slot: FieldSlot::Optional(
                    match &self.session_pass {
                        Some(sp) => Some(SqlValue::Blob(encode_session_pass(sp))),
                        None => None,
                    },
                ),
            },
        );
        proof {
            reveal_with_fuel(emitted_names, 6);
            reveal_with_fuel(emitted_data, 6);
            let fs = fields@;
            assert(fs.drop_last() =~= fs.subrange(0, 3));
            assert(fs.subrange(0, 3).drop_last() =~= fs.subrange(0, 2));
            assert(fs.subrange(0, 2).drop_last() =~= fs.subrange(0, 1));
            assert(fs.subrange(0, 1).drop_last() =~= fs.subrange(0, 0));
            assert(emitted_names(fs) =~= self.spec_bound_names());
            assert(emitted_data(fs) =~= self.spec_bound_data());
        }
        fields
    }
}

impl BindValues for QueryUserPass {
    open spec fn spec_bound_names(&self) -> Seq<Seq<char>> {
        (if self.id is Some {
            seq!["id"@]
        } else {
            Seq::empty()
        }) + (if self.user_id is Some {
            seq!["user_id"@]
        } else {
            Seq::empty()
        }) + (if self.time_pass is Some {
            seq!["time_pass"@]
        } else {
            Seq::empty()
        }) + (if self.session_pass is Some {
            seq!["session_pass"@]
        } else {
            Seq::empty()
        })
    }

    open spec fn spec_bound_data(&self) -> Seq<SqlData> {
        (if self.id is Some {
            seq![SqlData::Int(self.id->0 as int)]
        } else {
            Seq::empty()
        }) + (if self.user_id is Some {
            seq![SqlData::Int(self.user_id->0 as int)]
        } else {
            Seq::empty()
        }) + (if self.time_pass is Some {
            seq![SqlData::Blob(spec_encode_time_pass(self.time_pass->0))]
        } else {
            Seq::empty()
        }) + (if self.session_pass is Some {
            seq![SqlData::Blob(spec_encode_session_pass(self.session_pass->0))]
        } else {
            Seq::empty()
        })
    }

    proof fn bound_lists_lock_step(&self) {
    }

    fn bound_values(&self) -> (r: Vec<String>) {
        let bound = bind_fields(self.fields());
        bound.0
    }

    fn bind_values(&self) -> (r: Vec<SqlValue>) {
        let bound = bind_fields(self.fields());
        bound.1
    }
}

} // verus!
