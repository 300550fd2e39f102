use vstd::prelude::*;

verus! {

#[derive(Debug)]
pub enum IpAddrKind {
    V4,
    V6,
}

#[derive(Debug)]
pub struct IpAddr {
    pub kind: IpAddrKind,
    pub address: String,
}

/// An address whose variant carries its text.
pub enum IpAddrData {
    V4(String),
    V6(String),
}

/// Builds an address of each kind, the text held in the variant.
pub fn enum_data() {
    let _home = IpAddrData::V4(String::from_str("127.0.0.1"));
    let _loopback = IpAddrData::V6(String::from_str("::1"));
}

/// Adds one to the value, if there is one.
pub fn plus_one(x: Option<i32>) -> (r: Option<i32>)
    requires
        x matches Some(i) ==> i < i32::MAX,
    ensures
        r == match x {
            None => None,
            Some(i) => Some((i + 1) as i32),
        },
{
    match x {
        None => None,
        Some(i) => Some(i + 1),
    }
}

/// Applies `plus_one` to a value and to nothing.
pub fn enum_option() {
    let five = Some(5i32);
    let six = plus_one(five);
    let none = plus_one(None);
    assert(six == Some(6i32));
    assert(none is None);
}

pub enum Coin {
    Penny,
    Nickel,
    Dime,
    Quarter,
}

pub open spec fn cents_of(coin: Coin) -> u8 {
    match coin {
        Coin::Penny => 1,
        Coin::Nickel => 5,
        Coin::Dime => 10,
        Coin::Quarter => 25,
    }
}

/// The value of a coin in cents.
pub fn value_in_cents(coin: Coin) -> (r: u8)
    ensures
        r == cents_of(coin),
{
    match coin {
        Coin::Penny => 1,
        Coin::Nickel => 5,
        Coin::Dime => 10,
        Coin::Quarter => 25,
    }
}

#[derive(Debug, Clone, Copy)]
pub enum UsState {
    Alabama,
    Alaska,
}

/// A coin whose quarters carry the state they were minted for.
pub enum StateCoin {
    Penny,
    Nickel,
    Dime,
    Quarter(UsState),
}

pub open spec fn state_coin_cents(coin: StateCoin) -> u8 {
    match coin {
        StateCoin::Penny => 1,
        StateCoin::Nickel => 5,
        StateCoin::Dime => 10,
        StateCoin::Quarter(_) => 25,
    }
}

/// The value of a coin in cents, with the state of a quarter.
pub fn state_coin_value(coin: StateCoin) -> (r: (u8, Option<UsState>))
    ensures
        r.0 == state_coin_cents(coin),
        r.1 == match coin {
            StateCoin::Quarter(s) => Some(s),
            _ => None,
        },
{
    match coin {
        StateCoin::Penny => (1, None),
        StateCoin::Nickel => (5, None),
        StateCoin::Dime => (10, None),
        StateCoin::Quarter(state) => (25, Some(state)),
    }
}

} // verus!
