//! The fetched entity: an immutable profile value.

use vstd::prelude::*;

verus! {

/// Mathematical model of a [`Profile`]: the two text fields as character
/// sequences and the two counters as unbounded integers.
#[verifier::ext_equal]
pub struct ProfileView {
    pub name: Seq<char>,
    pub bio: Seq<char>,
    pub followers: int,
    pub following: int,
}

/// The fetched entity. Built once by the fetch task, then owned by the
/// status value; never observable in a partially constructed state.
#[derive(Debug)]
pub struct Profile {
    pub name: String,
    pub bio: String,
    pub followers: usize,
    pub following: usize,
}

impl View for Profile {
    type V = ProfileView;

    open spec fn view(&self) -> ProfileView {
        ProfileView {
            name: self.name@,
            bio: self.bio@,
            followers: self.followers as int,
            following: self.following as int,
        }
    }
}

impl Profile {
    /// Build a profile holding exactly the given fields.
    pub fn new(name: String, bio: String, followers: usize, following: usize) -> (p: Self)
        ensures
            p@.name == name@,
            p@.bio == bio@,
            p@.followers == followers as int,
            p@.following == following as int,
    {
        Self { name, bio, followers, following }
    }
}

impl Clone for Profile {
    /// A clone carries the same field values as the original.
    fn clone(&self) -> (p: Self)
        ensures
            p@ == self@,
    {
        Profile {
            name: self.name.clone(),
            bio: self.bio.clone(),
            followers: self.followers,
            following: self.following,
        }
    }
}

} // verus!
