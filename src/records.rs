//! Records: a user account, a rectangle with whole-number sides, and a
//! shopping cart.
use vstd::prelude::*;

verus! {

/// A user account.
pub struct User {
    pub username: String,
    pub email: String,
    pub age: u32,
    pub active: bool,
}

/// A new, active account with the given name, address and age.
pub fn create_user(username: String, email: String, age: u32) -> (u: User)
    ensures
        u.username@ == username@,
        u.email@ == email@,
        u.age == age,
        u.active,
{
    User { username, email, age, active: true }
}

/// A rectangle with whole-number sides.
#[derive(Clone, Copy, Debug, PartialEq, Eq, Structural)]
pub struct Rectangle {
    pub width: u32,
    pub height: u32,
}

impl Rectangle {
    /// The rectangle with the given sides.
    pub fn new(width: u32, height: u32) -> (r: Rectangle)
        ensures
            r.width == width,
            r.height == height,
    {
        Rectangle { width, height }
    }

    /// The square with sides of length `size`.
    pub fn square(size: u32) -> (r: Rectangle)
        ensures
            r.width == size,
            r.height == size,
    {
        Rectangle { width: size, height: size }
    }

    /// Width times height.
    pub fn area(&self) -> (a: u64)
        ensures
            a == self.width * self.height,
    {
        proof {
            vstd::arithmetic::mul::lemma_mul_upper_bound(
                self.width as int,
                u32::MAX as int,
                self.height as int,
                u32::MAX as int,
            );
        }
        self.width as u64 * self.height as u64
    }

    /// Twice the sum of the sides.
    pub fn perimeter(&self) -> (p: u64)
        ensures
            p == 2 * (self.width + self.height),
    {
        2 * (self.width as u64 + self.height as u64)
    }

    /// Whether both sides are equal.
    pub fn is_square(&self) -> (r: bool)
        ensures
            r == (self.width == self.height),
    {
        self.width == self.height
    }

    /// Gives the rectangle new sides.
    pub fn resize(&mut self, width: u32, height: u32)
        ensures
            final(self).width == width,
            final(self).height == height,
    {
        self.width = width;
        self.height = height;
    }

    /// Whether a `width` by `height` rectangle fits inside this one, unturned.
    pub fn can_fit(&self, width: u32, height: u32) -> (r: bool)
        ensures
            r == (self.width >= width && self.height >= height),
    {
        self.width >= width && self.height >= height
    }
}

/// Price of one item in a cart, in cents.
pub const ITEM_PRICE_CENTS: u64 = 100;

/// A shopping cart: the items in the order they were added, and what they cost.
pub struct ShoppingCart {
    pub items: Vec<String>,
    pub total_cents: u64,
}

impl ShoppingCart {
    /// Puts `item` at the end of the cart and adds its price to the total.
    pub fn add_item(&mut self, item: String)
        requires
            old(self).total_cents + ITEM_PRICE_CENTS <= u64::MAX,
        ensures
            final(self).items@ == old(self).items@.push(item),
            final(self).total_cents == old(self).total_cents + ITEM_PRICE_CENTS,
    {
        self.items.push(item);
        self.total_cents = self.total_cents + ITEM_PRICE_CENTS;
    }
}

} // verus!
