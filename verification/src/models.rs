//! The data model: identity records and the request/record shapes that the
//! surrounding endpoints exchange with the authentication subsystem.

use vstd::prelude::*;

verus! {

/// What a signup request carries: the fields of an identity record to create.
#[derive(Debug)]
pub struct NewUser {
    pub username: String,
    pub user_email: String,
    pub user_password: String,
}

/// What a login request carries: the credentials to verify.
#[derive(Debug)]
pub struct RequestUser {
    pub user_email: String,
    pub user_password: String,
}

/// A stored identity record. The email is normalized to lowercase before
/// storage and the password is kept only as a salted slow hash.
#[derive(Debug)]
pub struct User {
    pub user_id: String,
    pub username: String,
    pub user_email: String,
    pub user_password_hash: String,
}

#[derive(Clone, Copy, Debug, PartialEq, Eq, Structural)]
pub enum Gender {
    Male,
    Female,
    Other,
    PreferNotToSay,
}

#[derive(Debug)]
pub struct PersonalInfo {
    pub first_name: String,
    pub last_name: String,
    pub gender: Gender,
}

#[derive(Debug)]
pub struct Address {
    pub address_id: i64,
    pub unit: String,
    pub street: String,
    pub city: String,
    pub postal_code: i64,
    pub state_province: String,
    pub country: String,
}

#[derive(Clone, Copy, Debug, PartialEq, Eq, Structural)]
pub enum OrderStatus {
    Pending,
    Processing,
    Shipped,
}

#[derive(Clone, Copy, Debug, PartialEq, Eq, Structural)]
pub enum ProductCategory {
    Meat,
    Seafood,
    Vegetable,
    Fruit,
}

/// One entry of a cart, scoped to the identity that owns it.
#[derive(Debug)]
pub struct CartItem {
    pub user_id: String,
    pub product_id: i64,
    pub quantity: i64,
}

/// One line of a placed order.
#[derive(Clone, Copy, Debug, PartialEq, Eq, Structural)]
pub struct OrderItem {
    pub order_id: i64,
    pub product_id: i64,
    pub quantity: i64,
}

} // verus!
