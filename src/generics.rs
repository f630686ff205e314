//! Generic points and searches for the largest item.
use vstd::prelude::*;
use vstd::laws_cmp::obeys_partial_cmp_spec_properties;
use vstd::std_specs::cmp::{PartialOrdIs, PartialOrdSpec};
use vstd::string::StringExecFns;
use crate::text::{push_char, push_signed, signed_decimal};

verus! {

/// A point whose coordinates share one type.
pub struct Point<T> {
    pub x: T,
    pub y: T,
}

/// A point whose coordinates may differ in type.
pub struct SecondPoint<T, U> {
    pub x: T,
    pub y: U,
}

impl<T, U> SecondPoint<T, U> {
    /// The first coordinate.
    pub fn x(&self) -> (r: &T)
        ensures
            *r == self.x,
    {
        &self.x
    }
}

impl Point<i32> {
    /// The distance between the first coordinates of two points.
    pub fn abs_x_diff_from_point(&self, another_point: &Point<i32>) -> (r: i32)
        requires
            -i32::MAX <= self.x - another_point.x <= i32::MAX,
        ensures
            r == if self.x >= another_point.x {
                self.x - another_point.x
            } else {
                another_point.x - self.x
            },
    {
        let diff: i32 = self.x - another_point.x;
        if diff < 0 {
            -diff
        } else {
            diff
        }
    }
}

/// Something that can tell about itself.
pub trait PointInfo {
    spec fn info_text(&self) -> Seq<char>;

    /// What this value has to tell.
    fn info(&self) -> (r: String)
        ensures
            r@ == self.info_text(),
    ;

    /// The same for every value.
    fn description(&self) -> (r: String)
        ensures
            r@ == "I'm a PointInfo!"@,
    {
        String::from_str("I'm a PointInfo!")
    }
}

impl PointInfo for Point<i32> {
    open spec fn info_text(&self) -> Seq<char> {
        "Point<i32> info - x:"@ + signed_decimal(self.x as int) + ", y: "@ + signed_decimal(self.y as int)
    }

    fn info(&self) -> (r: String) {
        let mut r = String::from_str("Point<i32> info - x:");
        push_signed(&mut r, self.x as i64);
        r.append(", y: ");
        push_signed(&mut r, self.y as i64);
        r
    }
}

impl PointInfo for Point<char> {
    open spec fn info_text(&self) -> Seq<char> {
        "Point<char> info - x:"@ + seq![self.x] + ", y: "@ + seq![self.y]
    }

    fn info(&self) -> (r: String) {
        let mut r = String::from_str("Point<char> info - x:");
        push_char(&mut r, self.x);
        r.append(", y: ");
        push_char(&mut r, self.y);
        r
    }
}

/// A point of two integers.
pub fn produce_point(x: i32, y: i32) -> (r: Point<i32>)
    ensures
        r.x == x && r.y == y,
{
    Point { x, y }
}

/// A point of two characters.
pub fn produce_char_point(x: char, y: char) -> (r: Point<char>)
    ensures
        r.x == x && r.y == y,
{
    Point { x, y }
}

/// Holds a message that lives at least as long as the holder.
pub struct Super<'a> {
    pub message: &'a String,
}

impl<'a> Super<'a> {
    /// The held message. The second argument is what the caller
    /// announces alongside; it does not change the result.
    pub fn super_info(&self, _message: &str) -> (r: &str)
        ensures
            r@ == self.message@,
    {
        self.message.as_str()
    }
}

/// A point built from parts of two others.
pub struct PointMixCreator<T1, U1> {
    pub x: T1,
    pub y: U1,
}

impl<T1, U1> PointMixCreator<T1, U1> {
    /// A point with the first coordinate of `self` and the second of
    /// `another_point`.
    pub fn new_from_another_point<T2, U2>(self, another_point: PointMixCreator<T2, U2>) -> (r:
        PointMixCreator<T1, U2>)
        ensures
            r.x == self.x,
            r.y == another_point.y,
    {
        PointMixCreator { x: self.x, y: another_point.y }
    }
}

/// Whether `r` is the largest value of `s`.
pub open spec fn is_largest_u32(s: Seq<u32>, r: u32) -> bool {
    &&& s.contains(r)
    &&& forall|i: int| 0 <= i < s.len() ==> s[i] <= r
}

/// The largest number of a non-empty list.
pub fn get_largest(iter: &Vec<u32>) -> (r: u32)
    requires
        iter@.len() > 0,
    ensures
        is_largest_u32(iter@, r),
{
    let mut largest = iter[0];
    let mut i: usize = 0;
    while i < iter.len()
        invariant
            0 <= i <= iter@.len(),
            iter@.contains(largest),
            forall|j: int| 0 <= j < i ==> iter@[j] <= largest,
        decreases iter@.len() - i,
    {
        if iter[i] > largest {
            largest = iter[i];
        }
        i = i + 1;
    }
    largest
}

/// Whether `r` is an item of `s` than which no item of `s` is greater.
pub open spec fn is_maximal<T: PartialOrd>(s: Seq<T>, r: T) -> bool {
    &&& s.contains(r)
    &&& forall|i: int| 0 <= i < s.len() ==> !(#[trigger] s[i]).is_gt(&r)
}

/// The first item of a non-empty slice than which no item is greater.
pub fn get_largest_item<T: PartialOrd + Copy>(iter: &[T]) -> (r: T)
    requires
        iter@.len() > 0,
        T::obeys_partial_cmp_spec(),
        obeys_partial_cmp_spec_properties::<T>(),
    ensures
        is_maximal(iter@, r),
{
    let mut largest = iter[0];
    let mut i: usize = 0;
    while i < iter.len()
        invariant
            0 <= i <= iter@.len(),
            T::obeys_partial_cmp_spec(),
            obeys_partial_cmp_spec_properties::<T>(),
            iter@.contains(largest),
            forall|j: int| 0 <= j < i ==> !(#[trigger] iter@[j]).is_gt(&largest),
        decreases iter@.len() - i,
    {
        let elem = iter[i];
        if elem > largest {
            proof {
                reveal(obeys_partial_cmp_spec_properties);
                assert forall|j: int| 0 <= j < i implies !(#[trigger] iter@[j]).is_gt(&elem) by {
                    if iter@[j].is_gt(&elem) {
                        assert(iter@[j].is_gt(&largest));
                    }
                }
            }
            largest = elem;
        }
        i = i + 1;
    }
    largest
}

/// Like `get_largest_item`, returning a reference into the slice.
pub fn get_largest_item_ref<T: PartialOrd + Copy>(iter: &[T]) -> (r: &T)
    requires
        iter@.len() > 0,
        T::obeys_partial_cmp_spec(),
        obeys_partial_cmp_spec_properties::<T>(),
    ensures
        is_maximal(iter@, *r),
{
    let mut index: usize = 0;
    let mut largest = &iter[0];
    while index < iter.len()
        invariant
            0 <= index <= iter@.len(),
            T::obeys_partial_cmp_spec(),
            obeys_partial_cmp_spec_properties::<T>(),
            iter@.contains(*largest),
            forall|j: int| 0 <= j < index ==> !(#[trigger] iter@[j]).is_gt(largest),
        decreases iter@.len() - index,
    {
        let elem = iter[index];
        if elem > *largest {
            proof {
                reveal(obeys_partial_cmp_spec_properties);
                assert forall|j: int| 0 <= j < index implies !(#[trigger] iter@[j]).is_gt(&elem) by {
                    if iter@[j].is_gt(&elem) {
                        assert(iter@[j].is_gt(largest));
                    }
                }
            }
            largest = &iter[index];
        }
        index = index + 1;
    }
    largest
}

/// The longer of two strings by their length in bytes, or `"both"` when
/// the lengths are equal.
pub fn longest<'a>(str1: &'a str, str2: &'a str) -> (r: &'a str)
    ensures
        str1.len() > str2.len() ==> r == str1,
        str2.len() > str1.len() ==> r == str2,
        str1.len() == str2.len() ==> r@ == "both"@,
{
    if str1.len() > str2.len() {
        return str1;
    }
    if str2.len() > str1.len() {
        return str2;
    }
    "both"
}

} // verus!
