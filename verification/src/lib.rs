//! An ordered, serializable identifier for a fungible asset: either a native
//! ledger unit (`Coin`, a symbolic name) or a contract-issued unit (`Token`,
//! an account-style address).
//!
//! The type carries three capabilities for use as a key in an ordered
//! byte-comparison store:
//!
//! * a total order, stratified by variant: every `Token` sorts strictly below
//!   every `Coin`, and within a variant payloads order lexicographically;
//! * a human-readable string codec, `Coin(<name>)` / `Token(<address>)`, with
//!   the payload inserted verbatim (no escaping, so the round trip is only
//!   guaranteed for payloads free of parentheses);
//! * a binary key codec: a one-byte discriminant (`0x00` for `Coin`, `0x01`
//!   for `Token`) followed by the payload's raw UTF-8 bytes. Note that the
//!   discriminant's numeric order is deliberately the opposite of the value
//!   order above; both must be preserved exactly.

use vstd::prelude::*;

pub mod keys;
pub mod order;
pub mod text;

verus! {

/// A fungible asset identifier: a closed union of exactly two variants.
///
/// Payloads are opaque strings; this type performs no validation of coin
/// names or token addresses.
#[derive(Debug, Clone)]
pub enum Fungible {
    /// A native ledger unit, identified by a symbolic name.
    Coin(String),
    /// A contract-issued unit, identified by an account-style address.
    Token(String),
}

/// The mathematical model of a [`Fungible`]: the same two-variant union over
/// character sequences.
pub enum FungibleAbs {
    Coin(Seq<char>),
    Token(Seq<char>),
}

impl View for Fungible {
    type V = FungibleAbs;

    open spec fn view(&self) -> FungibleAbs {
        match self {
            Fungible::Coin(name) => FungibleAbs::Coin(name@),
            Fungible::Token(address) => FungibleAbs::Token(address@),
        }
    }
}

impl PartialEq for Fungible {
    /// Equality is structural: same variant and equal payload.
    fn eq(&self, other: &Self) -> (r: bool) {
        match (self, other) {
            (Fungible::Coin(a), Fungible::Coin(b)) => a.eq(b),
            (Fungible::Token(a), Fungible::Token(b)) => a.eq(b),
            _ => false,
        }
    }
}

impl vstd::std_specs::cmp::PartialEqSpecImpl for Fungible {
    open spec fn obeys_eq_spec() -> bool {
        true
    }

    open spec fn eq_spec(&self, other: &Fungible) -> bool {
        self@ == other@
    }
}

} // verus!
