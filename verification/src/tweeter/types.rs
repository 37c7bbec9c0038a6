//! The data of the service: user levels, users, tweets and the parts of a
//! tweet that can be edited.

use vstd::prelude::*;
use vstd::std_specs::cmp::PartialOrdSpec;
use core::cmp::Ordering;
use crate::oid::Oid;
use crate::tweeter::rules::rank;

verus! {

/// How much a user may do, from least to most.
#[derive(Clone, Copy, Debug, PartialEq, Eq, Ord, Structural)]
pub enum AdminLevel {
    /// May read tweets.
    Customer,
    /// May also write tweets.
    Author,
    /// May also edit tweets.
    Regulator,
    /// May also approve tweets.
    Possibleator,
    /// May do everything.
    Moderator,
}

/// How two ranks compare.
pub open spec fn rank_order(a: nat, b: nat) -> Ordering {
    if a < b {
        Ordering::Less
    } else if a == b {
        Ordering::Equal
    } else {
        Ordering::Greater
    }
}

/// Levels are ordered by rank: `Customer` below `Author` below `Regulator`
/// below `Possibleator` below `Moderator`.
impl PartialOrd for AdminLevel {
    fn partial_cmp(&self, other: &Self) -> (r: Option<Ordering>) {
        let a = self.level_value();
        let b = other.level_value();
        if a < b {
            Some(Ordering::Less)
        } else if a == b {
            Some(Ordering::Equal)
        } else {
            Some(Ordering::Greater)
        }
    }
}

impl vstd::std_specs::cmp::PartialOrdSpecImpl for AdminLevel {
    open spec fn obeys_partial_cmp_spec() -> bool {
        true
    }

    open spec fn partial_cmp_spec(&self, other: &Self) -> Option<Ordering> {
        Some(rank_order(rank(*self), rank(*other)))
    }
}

/// The order of levels is the order of their ranks: one level is below
/// another exactly when its rank is lower, and two levels compare equal
/// exactly when they are the same level.
pub proof fn law_level_order(a: AdminLevel, b: AdminLevel)
    ensures
        PartialOrdSpec::partial_cmp_spec(&a, &b) == Some(Ordering::Less) <==> rank(a) < rank(b),
        PartialOrdSpec::partial_cmp_spec(&a, &b) == Some(Ordering::Equal) <==> a == b,
        PartialOrdSpec::partial_cmp_spec(&a, &b) == Some(Ordering::Greater) <==> rank(a) > rank(b),
{
}

/// A part of a tweet together with its new content.
#[derive(Clone, Debug, PartialEq)]
pub enum EditableTweetSection {
    Title(String),
    Tweet(String),
    Status(String),
}

/// A tweet. Its status is one of `Editing`, `Edited`, `Approved`, `Rejected`.
#[derive(Clone, Debug, PartialEq)]
pub struct Tweet {
    pub id: Option<Oid>,
    pub author: String,
    pub title: String,
    pub tweet: String,
    pub status: String,
}

/// The contents of a tweet.
pub struct TweetView {
    pub id: Option<Oid>,
    pub author: Seq<char>,
    pub title: Seq<char>,
    pub tweet: Seq<char>,
    pub status: Seq<char>,
}

impl View for Tweet {
    type V = TweetView;

    open spec fn view(&self) -> TweetView {
        TweetView {
            id: self.id,
            author: self.author@,
            title: self.title@,
            tweet: self.tweet@,
            status: self.status@,
        }
    }
}

/// A user: a name, a password hash, a level, and whether the user has
/// asked to be promoted.
#[derive(Clone, Debug, PartialEq)]
pub struct User {
    pub id: Option<Oid>,
    pub name: String,
    pub password: String,
    pub adminlevel: AdminLevel,
    pub want_be_mod: bool,
}

/// The contents of a user.
pub struct UserView {
    pub id: Option<Oid>,
    pub name: Seq<char>,
    pub password: Seq<char>,
    pub adminlevel: AdminLevel,
    pub want_be_mod: bool,
}

impl View for User {
    type V = UserView;

    open spec fn view(&self) -> UserView {
        UserView {
            id: self.id,
            name: self.name@,
            password: self.password@,
            adminlevel: self.adminlevel,
            want_be_mod: self.want_be_mod,
        }
    }
}

} // verus!
