//! Rectangles: their area and whether one fits inside another.
use vstd::prelude::*;

verus! {

#[derive(PartialEq, Eq, Structural, Debug, Clone, Copy)]
pub struct Rectangle {
    pub width: u32,
    pub height: u32,
}

impl Rectangle {
    pub fn area(&self) -> (r: u32)
        requires
            self.width * self.height <= u32::MAX,
        ensures
            r == self.width * self.height,
    {
        self.width * self.height
    }

    /// Whether `other` fits strictly inside `self`.
    pub fn can_hold(&self, other: &Rectangle) -> (r: bool)
        ensures
            r == (self.width > other.width && self.height > other.height),
    {
        self.width > other.width && self.height > other.height
    }

    pub fn ctor(width: u32, height: u32) -> (r: Rectangle)
        ensures
            r == (Rectangle { width, height }),
    {
        Rectangle { width, height }
    }

    pub fn square(size: u32) -> (r: Rectangle)
        ensures
            r == (Rectangle { width: size, height: size }),
    {
        Rectangle { width: size, height: size }
    }
}

/// A rectangle whose sides can be of any type.
pub struct Rect<T> {
    pub width: T,
    pub height: T,
}

impl<T> Rect<T> {
    pub fn new(width: T, height: T) -> (r: Rect<T>)
        ensures
            r.width == width,
            r.height == height,
    {
        Rect { width, height }
    }
}

impl Rect<i32> {
    pub fn area(&self) -> (r: i32)
        requires
            i32::MIN <= self.width * self.height <= i32::MAX,
        ensures
            r == self.width * self.height,
    {
        self.width * self.height
    }
}

} // verus!
