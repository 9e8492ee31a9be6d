//! Request definitions for retrieving users: a profile fetch by account id,
//! and a search by name.

use vstd::prelude::*;
use vstd::string::StringExecFns;
use crate::indexed::{emit_fields, FieldV, Field};
use crate::request::{
    endpoint_base_url, request_to_string, spec_base_fields, spec_default_base_url, spec_gd_22,
    BaseRequest, BaseRequestV,
};
use crate::value::{Value, ValueV};

verus! {

/// The endpoint that serves player profiles.
pub open spec fn spec_get_user_endpoint() -> Seq<char> {
    "getGJUserInfo20.php"@
}

/// The endpoint that searches users by name.
pub open spec fn spec_search_user_endpoint() -> Seq<char> {
    "getGJUsers20.php"@
}

/// A request to download one player profile by account id.
pub struct UserRequest {
    /// The base request data.
    pub base: BaseRequest,
    /// The account id (not user id) of the user whose data to retrieve; on
    /// the wire this field is called `targetAccountID`.
    pub user: u64,
}

/// The mathematical model of a `UserRequest`.
pub struct UserRequestV {
    pub base: BaseRequestV,
    pub user: u64,
}

impl View for UserRequest {
    type V = UserRequestV;

    open spec fn view(&self) -> UserRequestV {
        UserRequestV { base: self.base@, user: self.user }
    }
}

/// The fields of a user request, in declared order: the base request's
/// fields, then `targetAccountID`.
pub open spec fn spec_user_request_fields(r: UserRequestV) -> Seq<FieldV> {
    spec_base_fields(r.base) + seq![
        FieldV { name: "targetAccountID"@, value: ValueV::U64(r.user) },
    ]
}

impl UserRequest {
    /// A user request for the given account id, with the default base data.
    pub fn new(user_id: u64) -> (r: UserRequest)
        ensures
            r.base@ == spec_gd_22(),
            r.user == user_id,
    {
        UserRequest { base: BaseRequest::gd_22(), user: user_id }
    }

    /// The URL this request goes to, under the default base address.
    pub fn to_url(&self) -> (r: String)
        ensures
            r@ == spec_default_base_url() + spec_get_user_endpoint(),
    {
        endpoint_base_url(None).concat("getGJUserInfo20.php")
    }

    /// This request's fields, in declared order.
    pub fn to_fields(&self) -> (r: Vec<Field>)
        ensures
            r@.map_values(|f: Field| f@) == spec_user_request_fields(self@),
    {
        let mut v = self.base.to_fields();
        v.push(Field { name: "targetAccountID".to_owned(), value: Value::U64(self.user) });
        proof {
            assert(v@.map_values(|f: Field| f@) =~= spec_user_request_fields(self@));
        }
        v
    }

    /// The text rendering of this request, for the transport layer.
    pub fn to_request_string(&self) -> (r: String)
        ensures
            r@ == emit_fields(true, "&"@, true, spec_user_request_fields(self@)).0,
    {
        let fields = self.to_fields();
        request_to_string(&fields)
    }
}

/// A request to search for a user by name.  The backend matches the name
/// exactly — earlier it was a paginating prefix search — so at most one
/// user comes back, and the pagination fields are vestigial.
pub struct UserSearchRequest {
    /// The base request data.
    pub base: BaseRequest,
    /// Unknown, probably related to pagination; on the wire `total`.
    pub total: u32,
    /// The page of users to retrieve; on the wire `page`.
    pub page: u32,
    /// The name searched for; on the wire this field is called `str`.
    pub search_string: String,
}

/// The mathematical model of a `UserSearchRequest`.
pub struct UserSearchRequestV {
    pub base: BaseRequestV,
    pub total: u32,
    pub page: u32,
    pub search_string: Seq<char>,
}

impl View for UserSearchRequest {
    type V = UserSearchRequestV;

    open spec fn view(&self) -> UserSearchRequestV {
        UserSearchRequestV {
            base: self.base@,
            total: self.total,
            page: self.page,
            search_string: self.search_string@,
        }
    }
}

/// The fields of a search request, in declared order: the base request's
/// fields, then `total`, `page`, and the searched name under `str`.
pub open spec fn spec_user_search_fields(r: UserSearchRequestV) -> Seq<FieldV> {
    spec_base_fields(r.base) + seq![
        FieldV { name: "total"@, value: ValueV::U32(r.total) },
        FieldV { name: "page"@, value: ValueV::U32(r.page) },
        FieldV { name: "str"@, value: ValueV::Str(r.search_string) },
    ]
}

impl UserSearchRequest {
    /// A search request for the given name, with the default base data and
    /// the pagination fields zeroed.
    pub fn new(search_string: &str) -> (r: UserSearchRequest)
        ensures
            r.base@ == spec_gd_22(),
            r.total == 0,
            r.page == 0,
            r.search_string@ == search_string@,
    {
        UserSearchRequest {
            base: BaseRequest::gd_22(),
            total: 0,
            page: 0,
            search_string: search_string.to_owned(),
        }
    }

    /// The URL this request goes to, under the default base address.
    pub fn to_url(&self) -> (r: String)
        ensures
            r@ == spec_default_base_url() + spec_search_user_endpoint(),
    {
        endpoint_base_url(None).concat("getGJUsers20.php")
    }

    /// This request's fields, in declared order.
    pub fn to_fields(&self) -> (r: Vec<Field>)
        ensures
            r@.map_values(|f: Field| f@) == spec_user_search_fields(self@),
    {
        let mut v = self.base.to_fields();
        v.push(Field { name: "total".to_owned(), value: Value::U32(self.total) });
        v.push(Field { name: "page".to_owned(), value: Value::U32(self.page) });
        v.push(Field { name: "str".to_owned(), value: Value::Str(self.search_string.clone()) });
        proof {
            assert(v@.map_values(|f: Field| f@) =~= spec_user_search_fields(self@));
        }
        v
    }

    /// The text rendering of this request, for the transport layer.
    pub fn to_request_string(&self) -> (r: String)
        ensures
            r@ == emit_fields(true, "&"@, true, spec_user_search_fields(self@)).0,
    {
        let fields = self.to_fields();
        request_to_string(&fields)
    }
}

} // verus!
