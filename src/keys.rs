use vstd::prelude::*;
use vstd::string::*;
use crate::error::ApiError;

verus! {

/// `a` and `b` hold the same characters.
pub fn str_eq(a: &str, b: &str) -> (r: bool)
    ensures
        r == (a@ == b@),
{
    a.to_owned() == b.to_owned()
}

/// What a request does to an object, as the policy engine knows it.
#[derive(Debug, Clone, Copy, PartialEq, Eq, Structural)]
pub enum Action {
    Read,
    Update,
    Delete,
}

impl Action {
    pub open spec fn name(self) -> Seq<char> {
        match self {
            Action::Read => "read"@,
            Action::Update => "update"@,
            Action::Delete => "delete"@,
        }
    }

    /// The action's name in the policy language.
    pub fn as_str(&self) -> (r: &'static str)
        ensures
            r@ == self.name(),
    {
        match self {
            Action::Read => "read",
            Action::Update => "update",
            Action::Delete => "delete",
        }
    }
}

/// The action that an HTTP method performs, if it has one.
pub open spec fn action_of(method: Seq<char>) -> Option<Action> {
    if method == "HEAD"@ || method == "GET"@ {
        Some(Action::Read)
    } else if method == "PUT"@ {
        Some(Action::Update)
    } else if method == "DELETE"@ {
        Some(Action::Delete)
    } else {
        None
    }
}

/// Maps an HTTP method to the action that the policy engine authorizes.
pub fn parse_action(method: &str) -> (r: Result<Action, ApiError>)
    ensures
        action_of(method@) is Some ==> r == Ok::<Action, ApiError>(action_of(method@)->0),
        action_of(method@) is None ==> (r matches Err(ApiError::InvalidMethod(m)) && m@ == method@),
{
    if str_eq(method, "HEAD") || str_eq(method, "GET") {
        Ok(Action::Read)
    } else if str_eq(method, "PUT") {
        Ok(Action::Update)
    } else if str_eq(method, "DELETE") {
        Ok(Action::Delete)
    } else {
        Err(ApiError::InvalidMethod(method.to_owned()))
    }
}

/// The storage key of `object` inside set `set`.
pub open spec fn composite_key(set: Seq<char>, object: Seq<char>) -> Seq<char> {
    set + seq!['.'] + object
}

/// The storage key of an object: composite inside a set, the bare name otherwise.
pub open spec fn storage_key(set: Option<Seq<char>>, object: Seq<char>) -> Seq<char> {
    match set {
        Some(s) => composite_key(s, object),
        None => object,
    }
}

/// Builds the storage key `"{set}.{object}"` of an object inside a set.
pub fn s3_object(set: &str, object: &str) -> (r: String)
    ensures
        r@ == composite_key(set@, object@),
{
    proof {
        reveal_strlit(".");
    }
    let mut key = String::from_str(set);
    key.append(".");
    key.append(object);
    key
}

/// Builds the storage key of an object, inside a set when one is given.
pub fn object_key(set: Option<&str>, object: &str) -> (r: String)
    ensures
        r@ == storage_key(
            match set {
                Some(s) => Some(s@),
                None => None,
            },
            object@,
        ),
{
    match set {
        Some(s) => s3_object(s, object),
        None => String::from_str(object),
    }
}

/// The policy resource of a single object.
pub open spec fn object_resource(bucket: Seq<char>, object: Seq<char>) -> Seq<Seq<char>> {
    seq!["buckets"@, bucket, "objects"@, object]
}

/// The policy resource of a set of objects.
pub open spec fn set_resource(bucket: Seq<char>, set: Seq<char>) -> Seq<Seq<char>> {
    seq!["buckets"@, bucket, "sets"@, set]
}

/// The characters of each string of `v`.
pub open spec fn strings_view(v: Seq<String>) -> Seq<Seq<char>> {
    v.map_values(|s: String| s@)
}

fn resource_path(bucket: &str, segment: &str, name: &str) -> (r: Vec<String>)
    ensures
        strings_view(r@) =~= seq!["buckets"@, bucket@, segment@, name@],
{
    let mut path: Vec<String> = Vec::new();
    path.push(String::from_str("buckets"));
    path.push(String::from_str(bucket));
    path.push(String::from_str(segment));
    path.push(String::from_str(name));
    path
}

/// The resource path that the policy engine is asked about for an object,
/// through its set when one is given.
pub fn authz_resource(bucket: &str, set: Option<&str>, object: &str) -> (r: Vec<String>)
    ensures
        strings_view(r@) == match set {
            Some(s) => set_resource(bucket@, s@),
            None => object_resource(bucket@, object@),
        },
{
    match set {
        Some(s) => resource_path(bucket, "sets", s),
        None => resource_path(bucket, "objects", object),
    }
}

} // verus!
