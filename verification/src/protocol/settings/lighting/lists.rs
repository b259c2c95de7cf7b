//! The bounded lists in which the lighting settings hold their items.
//!
//! The lists are `ArrayVec`s of the crate `arrayvec`. Verus does not look
//! inside of them: what a list holds has a name here, and the functions that
//! fill a list say over that name what the crate does.

use arrayvec::ArrayVec;
use vstd::prelude::*;

use super::parts::Color;
use super::Controller;

verus! {

/// The type `arrayvec::ArrayVec`: a vector of at most `CAP` items that are
/// stored in place.
#[verifier::external_type_specification]
#[verifier::external_body]
#[verifier::reject_recursive_types(T)]
pub struct ExArrayVec<T, const CAP: usize>(ArrayVec<T, CAP>);

/// `ArrayVec::clone` clones the items. Nothing is claimed of the result.
pub assume_specification<T, const CAP: usize>[ <ArrayVec<T, CAP> as Clone>::clone ](
    list: &ArrayVec<T, CAP>,
) -> ArrayVec<T, CAP> where T: Clone
;

/// The colors that a list of at most five colors holds, in their order.
pub uninterp spec fn colors5(list: ArrayVec<Color, 5>) -> Seq<Color>;

/// The colors that a list of at most six colors holds, in their order.
pub uninterp spec fn colors6(list: ArrayVec<Color, 6>) -> Seq<Color>;

/// The ranges that a list of at most four ranges holds, in their order.
pub uninterp spec fn ranges4(list: ArrayVec<(Color, u16, bool), 4>) -> Seq<(Color, u16, bool)>;

/// The ranges that a list of at most six ranges holds, in their order.
pub uninterp spec fn ranges6(list: ArrayVec<(Color, u16, bool), 6>) -> Seq<(Color, u16, bool)>;

/// The stops that a list of at most three stops holds, in their order.
pub uninterp spec fn stops3(list: ArrayVec<(Color, u16), 3>) -> Seq<(Color, u16)>;

/// The controllers that a list of at most six controllers holds, in their
/// order.
pub uninterp spec fn controllers6(list: ArrayVec<Controller, 6>) -> Seq<Controller>;

/// The controllers that a list of at most two controllers holds, in their
/// order.
pub uninterp spec fn controllers2(list: ArrayVec<Controller, 2>) -> Seq<Controller>;

/// Calls `ArrayVec::from_iter`, which pushes the items in their order onto an
/// empty list and panics where they are more than the list can hold.
#[verifier::external_body]
pub(crate) fn collect_colors5(items: Vec<Color>) -> (list: ArrayVec<Color, 5>)
    requires
        items@.len() <= 5,
    ensures
        colors5(list) == items@,
{
    items.into_iter().collect()
}

/// Calls `ArrayVec::from_iter`, which pushes the items in their order onto an
/// empty list and panics where they are more than the list can hold.
#[verifier::external_body]
pub(crate) fn collect_colors6(items: Vec<Color>) -> (list: ArrayVec<Color, 6>)
    requires
        items@.len() <= 6,
    ensures
        colors6(list) == items@,
{
    items.into_iter().collect()
}

/// Calls `ArrayVec::from_iter`, which pushes the items in their order onto an
/// empty list and panics where they are more than the list can hold.
#[verifier::external_body]
pub(crate) fn collect_ranges4(items: Vec<(Color, u16, bool)>) -> (list: ArrayVec<
    (Color, u16, bool),
    4,
>)
    requires
        items@.len() <= 4,
    ensures
        ranges4(list) == items@,
{
    items.into_iter().collect()
}

/// Calls `ArrayVec::from_iter`, which pushes the items in their order onto an
/// empty list and panics where they are more than the list can hold.
#[verifier::external_body]
pub(crate) fn collect_ranges6(items: Vec<(Color, u16, bool)>) -> (list: ArrayVec<
    (Color, u16, bool),
    6,
>)
    requires
        items@.len() <= 6,
    ensures
        ranges6(list) == items@,
{
    items.into_iter().collect()
}

/// Calls `ArrayVec::from_iter`, which pushes the items in their order onto an
/// empty list and panics where they are more than the list can hold.
#[verifier::external_body]
pub(crate) fn collect_stops3(items: Vec<(Color, u16)>) -> (list: ArrayVec<(Color, u16), 3>)
    requires
        items@.len() <= 3,
    ensures
        stops3(list) == items@,
{
    items.into_iter().collect()
}

/// Calls `ArrayVec::from_iter`, which pushes the items in their order onto an
/// empty list and panics where they are more than the list can hold.
#[verifier::external_body]
pub(crate) fn collect_controllers6(items: Vec<Controller>) -> (list: ArrayVec<Controller, 6>)
    requires
        items@.len() <= 6,
    ensures
        controllers6(list) == items@,
{
    items.into_iter().collect()
}

/// Calls `ArrayVec::from_iter`, which pushes the items in their order onto an
/// empty list and panics where they are more than the list can hold.
#[verifier::external_body]
pub(crate) fn collect_controllers2(items: Vec<Controller>) -> (list: ArrayVec<Controller, 2>)
    requires
        items@.len() <= 2,
    ensures
        controllers2(list) == items@,
{
    items.into_iter().collect()
}

} // verus!
