//! Plain records: a sized rectangle, a user and a colour.
use vstd::prelude::*;
use vstd::string::StringExecFns;
use crate::text::{decimal, flag, push_decimal, push_flag};

verus! {

pub struct Shape {
    pub width: usize,
    pub height: usize,
}

pub struct Rectangle {
    pub shape: Shape,
}

impl Rectangle {
    /// Width times height.
    pub fn get_area(&self) -> (r: usize)
        requires
            self.shape.width * self.shape.height <= usize::MAX,
        ensures
            r == self.shape.width * self.shape.height,
    {
        self.shape.width * self.shape.height
    }

    /// Whether this rectangle is strictly larger than `rect` on both sides.
    pub fn can_hold(&self, rect: &Rectangle) -> (r: bool)
        ensures
            r == (self.shape.width > rect.shape.width && self.shape.height > rect.shape.height),
    {
        self.shape.width > rect.shape.width && self.shape.height > rect.shape.height
    }

    pub open spec fn text(&self) -> Seq<char> {
        "Rectangle -> Width: "@ + decimal(self.shape.width as nat) + ", Height: "@ + decimal(
            self.shape.height as nat,
        ) + ", Area: "@ + decimal((self.shape.width * self.shape.height) as nat)
    }

    /// The rectangle's sides and area, as it is displayed.
    pub fn describe(&self) -> (r: String)
        requires
            self.shape.width * self.shape.height <= usize::MAX,
        ensures
            r@ == self.text(),
    {
        let mut r = String::from_str("Rectangle -> Width: ");
        push_decimal(&mut r, self.shape.width as u64);
        r.append(", Height: ");
        push_decimal(&mut r, self.shape.height as u64);
        r.append(", Area: ");
        push_decimal(&mut r, self.get_area() as u64);
        r
    }
}

pub struct User {
    pub active: bool,
    pub email: String,
    pub username: String,
    pub sign_in_count: u64,
}

/// A new, inactive user who has never signed in.
pub fn define_new_user(user: &str, email: &str) -> (r: User)
    ensures
        !r.active,
        r.email@ == email@,
        r.username@ == user@,
        r.sign_in_count == 0,
{
    User { active: false, email: String::from_str(email), username: String::from_str(user), sign_in_count: 0 }
}

impl User {
    pub open spec fn text(&self) -> Seq<char> {
        "User - User: "@ + self.username@ + ", Email: "@ + self.email@ + ", Sign In Count: "@ + decimal(
            self.sign_in_count as nat,
        ) + ", Active: "@ + flag(self.active)
    }

    /// The user as it is displayed.
    pub fn describe(&self) -> (r: String)
        ensures
            r@ == self.text(),
    {
        let mut r = String::from_str("User - User: ");
        r.append(self.username.as_str());
        r.append(", Email: ");
        r.append(self.email.as_str());
        r.append(", Sign In Count: ");
        push_decimal(&mut r, self.sign_in_count);
        r.append(", Active: ");
        push_flag(&mut r, self.active);
        r
    }
}

/// A colour by its red, green and blue parts.
pub struct RGB(pub usize, pub usize, pub usize);

pub fn get_color(red: usize, green: usize, blue: usize) -> (r: RGB)
    ensures
        r.0 == red && r.1 == green && r.2 == blue,
{
    RGB(red, green, blue)
}

impl RGB {
    pub open spec fn text(&self) -> Seq<char> {
        "Red: "@ + decimal(self.0 as nat) + ", Green: "@ + decimal(self.1 as nat) + ", Blue: "@ + decimal(
            self.2 as nat,
        )
    }

    /// The colour as it is displayed.
    pub fn describe(&self) -> (r: String)
        ensures
            r@ == self.text(),
    {
        let mut r = String::from_str("Red: ");
        push_decimal(&mut r, self.0 as u64);
        r.append(", Green: ");
        push_decimal(&mut r, self.1 as u64);
        r.append(", Blue: ");
        push_decimal(&mut r, self.2 as u64);
        r
    }
}

/// An address in one of three forms.
pub enum IpAddress {
    V4(String),
    V6(String),
    V4SPLIT(usize, usize, usize, usize),
}

impl IpAddress {
    pub open spec fn version_text(&self) -> Seq<char> {
        match self {
            IpAddress::V6(_) => "v6"@,
            _ => "v4"@,
        }
    }

    pub open spec fn address_text(&self) -> Seq<char> {
        match self {
            IpAddress::V4(value) => value@,
            IpAddress::V6(value) => value@,
            IpAddress::V4SPLIT(a, b, c, d) => decimal(*a as nat) + ","@ + decimal(*b as nat) + ","@
                + decimal(*c as nat) + ","@ + decimal(*d as nat),
        }
    }

    /// "v4" or "v6".
    pub fn version(&self) -> (r: String)
        ensures
            r@ == self.version_text(),
    {
        match self {
            IpAddress::V4SPLIT(..) => String::from_str("v4"),
            IpAddress::V4(_) => String::from_str("v4"),
            IpAddress::V6(_) => String::from_str("v6"),
        }
    }

    /// The address as written, its four parts separated by commas when
    /// given as numbers.
    pub fn address(&self) -> (r: String)
        ensures
            r@ == self.address_text(),
    {
        match self {
            IpAddress::V4(value) => String::from_str(value.as_str()),
            IpAddress::V4SPLIT(byte_1, byte_2, byte_3, byte_4) => {
                let mut r = String::new();
                push_decimal(&mut r, *byte_1 as u64);
                r.append(",");
                push_decimal(&mut r, *byte_2 as u64);
                r.append(",");
                push_decimal(&mut r, *byte_3 as u64);
                r.append(",");
                push_decimal(&mut r, *byte_4 as u64);
                r
            },
            IpAddress::V6(value) => String::from_str(value.as_str()),
        }
    }

    /// The address and its version, as displayed.
    pub fn describe(&self) -> (r: String)
        ensures
            r@ == "Address: "@ + self.address_text() + ", Version: "@ + self.version_text(),
    {
        let mut r = String::from_str("Address: ");
        let address = self.address();
        r.append(address.as_str());
        r.append(", Version: ");
        let version = self.version();
        r.append(version.as_str());
        r
    }
}

} // verus!
