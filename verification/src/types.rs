//! Plain types shared by the whole library.
use vstd::prelude::*;

verus! {

/// Identifier of a record in the database.
pub type Id = u64;

/// An error with its text, as the handlers report it.
pub struct CommonError(pub String);

pub type CommonResult<T> = Result<T, CommonError>;
pub type EmptyResult = Result<(), CommonError>;

/// A point in time: seconds and nanoseconds since the epoch.
#[derive(Clone, Copy, Debug, PartialEq, Eq, Structural)]
pub struct Timespec {
    pub sec: i64,
    pub nsec: i32,
}

/// An identifier together with a display name.
#[derive(Clone, Debug)]
pub struct ShortInfo {
    pub id: Id,
    pub name: String,
}

/// Stored format of an uploaded image.
#[derive(Clone, Copy, Debug, PartialEq, Eq, Structural)]
pub enum ImageType {
    Jpeg,
    Png,
}

/// What a comment is attached to.
#[derive(Clone, Copy, Debug, PartialEq, Eq, Structural)]
pub enum CommentFor {
    Photo,
    Event,
}

impl ShortInfo {
    /// A copy of this record.
    pub fn duplicate(&self) -> (r: ShortInfo)
        ensures
            r.id == self.id,
            r.name@ == self.name@,
    {
        ShortInfo { id: self.id, name: self.name.clone() }
    }
}

} // verus!
