//! What goes to the directory and what comes back, as plain values.
//!
//! A client turns a request into a remote call and hands back what the call
//! gave, in these types; the decisions of the library read nothing else.

use vstd::prelude::*;

verus! {

/// The arguments of one "list users" call.
#[derive(Clone, Debug, PartialEq, Eq)]
pub struct ListUsersRequest {
    pub user_pool_id: String,
    pub filter: String,
    pub limit: i32,
}

/// The mathematical value of a [`ListUsersRequest`].
pub ghost struct ListUsersRequestView {
    pub user_pool_id: Seq<char>,
    pub filter: Seq<char>,
    pub limit: int,
}

impl View for ListUsersRequest {
    type V = ListUsersRequestView;

    open spec fn view(&self) -> ListUsersRequestView {
        ListUsersRequestView {
            user_pool_id: self.user_pool_id@,
            filter: self.filter@,
            limit: self.limit as int,
        }
    }
}

/// The arguments of one "delete user attributes" call.
#[derive(Clone, Debug, PartialEq, Eq)]
pub struct AdminDeleteUserAttributesRequest {
    pub user_pool_id: String,
    pub username: String,
    pub attributes: Vec<String>,
}

/// The mathematical value of an [`AdminDeleteUserAttributesRequest`].
pub ghost struct AdminDeleteUserAttributesRequestView {
    pub user_pool_id: Seq<char>,
    pub username: Seq<char>,
    pub attributes: Seq<Seq<char>>,
}

impl View for AdminDeleteUserAttributesRequest {
    type V = AdminDeleteUserAttributesRequestView;

    open spec fn view(&self) -> AdminDeleteUserAttributesRequestView {
        AdminDeleteUserAttributesRequestView {
            user_pool_id: self.user_pool_id@,
            username: self.username@,
            attributes: Seq::new(self.attributes@.len(), |i: int| self.attributes@[i]@),
        }
    }
}

/// One record of the directory, as far as the library reads it.
#[derive(Clone, Debug, PartialEq, Eq)]
pub struct UserType {
    pub username: Option<String>,
}

impl View for UserType {
    type V = Option<Seq<char>>;

    /// The username of the record, where it has one.
    open spec fn view(&self) -> Option<Seq<char>> {
        match self.username {
            Some(name) => Some(name@),
            None => None,
        }
    }
}

/// The answer to a "list users" call.
#[derive(Clone, Debug, PartialEq, Eq)]
pub struct ListUsersOutput {
    pub users: Option<Vec<UserType>>,
}

impl View for ListUsersOutput {
    type V = Seq<Option<Seq<char>>>;

    /// The usernames of the listed records, in the order of the answer. An
    /// answer without a list counts as one with an empty list.
    open spec fn view(&self) -> Seq<Option<Seq<char>>> {
        match self.users {
            Some(users) => Seq::new(users@.len(), |i: int| users@[i]@),
            None => Seq::empty(),
        }
    }
}

/// The answer to a "delete user attributes" call: an acknowledgement.
#[derive(Clone, Copy, Debug, PartialEq, Eq)]
pub struct AdminDeleteUserAttributesOutput {}

/// A remote call that failed, at the transport or at the provider.
#[derive(Clone, Debug, PartialEq, Eq)]
pub struct TransportError {
    /// The description of the underlying failure.
    pub description: String,
}

impl View for TransportError {
    type V = Seq<char>;

    open spec fn view(&self) -> Seq<char> {
        self.description@
    }
}

/// The value of what a "list users" call gave.
pub open spec fn listed(response: Result<ListUsersOutput, TransportError>) -> Result<
    Seq<Option<Seq<char>>>,
    Seq<char>,
> {
    match response {
        Ok(output) => Ok(output@),
        Err(error) => Err(error@),
    }
}

/// The value of what a "delete user attributes" call gave.
pub open spec fn deleted(
    response: Result<AdminDeleteUserAttributesOutput, TransportError>,
) -> Result<(), Seq<char>> {
    match response {
        Ok(_) => Ok(()),
        Err(error) => Err(error@),
    }
}

} // verus!
