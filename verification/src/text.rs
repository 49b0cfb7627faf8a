//! The human-readable string codec: `Coin(<name>)` / `Token(<address>)`.
//!
//! The payload is inserted verbatim — no escaping, no length prefix — and
//! decoding takes everything between the fixed wrapper and the final closing
//! parenthesis. The round trip is therefore only guaranteed for payload
//! alphabets that exclude parentheses; this limitation is deliberate, since
//! escaping would change the textual form of values already stored or
//! transmitted.

use vstd::prelude::*;
use vstd::string::StrSliceExecFns;
use vstd::string::StringExecFns;

use crate::Fungible;
use crate::FungibleAbs;

verus! {

/// The canonical textual form: the variant name, an opening parenthesis, the
/// payload verbatim, and a closing parenthesis.
pub open spec fn format_abs(v: FungibleAbs) -> Seq<char> {
    match v {
        FungibleAbs::Coin(name) => "Coin("@ + name + ")"@,
        FungibleAbs::Token(address) => "Token("@ + address + ")"@,
    }
}

/// Whether `s` has the form `Coin(<payload>)`.
pub open spec fn is_coin_text(s: Seq<char>) -> bool {
    s.len() >= 6 && s.subrange(0, 5) == "Coin("@ && s[s.len() - 1] == ')'
}

/// Whether `s` has the form `Token(<payload>)`.
pub open spec fn is_token_text(s: Seq<char>) -> bool {
    s.len() >= 7 && s.subrange(0, 6) == "Token("@ && s[s.len() - 1] == ')'
}

/// The inverse of `format_abs`, where one exists: strings in neither wrapper
/// form are rejected.
pub open spec fn parse_abs(s: Seq<char>) -> Option<FungibleAbs> {
    if is_coin_text(s) {
        Some(FungibleAbs::Coin(s.subrange(5, s.len() - 1)))
    } else if is_token_text(s) {
        Some(FungibleAbs::Token(s.subrange(6, s.len() - 1)))
    } else {
        None
    }
}

/// Whether the first `p@.len()` characters of `s` equal `p`.
fn starts_with_lit(s: &str, p: &str) -> (r: bool)
    ensures
        r == (s@.len() >= p@.len() && s@.subrange(0, p@.len() as int) == p@),
{
    let s_len = s.unicode_len();
    let p_len = p.unicode_len();
    if s_len < p_len {
        return false;
    }
    let mut i: usize = 0;
    while i < p_len
        invariant
            s_len == s@.len(),
            p_len == p@.len(),
            p_len <= s_len,
            i <= p_len,
            forall|j: int| 0 <= j < i ==> s@[j] == p@[j],
        decreases p_len - i,
    {
        if s.get_char(i) != p.get_char(i) {
            proof {
                assert(s@.subrange(0, p@.len() as int)[i as int] == s@[i as int]);
            }
            return false;
        }
        i = i + 1;
    }
    proof {
        assert(s@.subrange(0, p@.len() as int) =~= p@);
    }
    true
}

impl Fungible {
    /// The canonical human-readable form, `Coin(<name>)` or
    /// `Token(<address>)`, with the payload inserted verbatim.
    pub fn to_string(&self) -> (r: String)
        ensures
            r@ == format_abs(self@),
    {
        match self {
            Fungible::Coin(name) => {
                let mut r = String::from_str("Coin(");
                r.append(name.as_str());
                r.append(")");
                r
            },
            Fungible::Token(address) => {
                let mut r = String::from_str("Token(");
                r.append(address.as_str());
                r.append(")");
                r
            },
        }
    }

    /// Decode the canonical textual form. Succeeds exactly on strings that
    /// start with `Coin(` or `Token(` and end with `)`; the characters in
    /// between are taken verbatim as the payload. Anything else is rejected
    /// with a message carrying the offending input.
    pub fn parse_str(s: &str) -> (r: Result<Fungible, String>)
        ensures
            (r matches Ok(f)) <==> parse_abs(s@) is Some,
            r matches Ok(f) ==> Some(f@) == parse_abs(s@),
            r matches Err(m) ==> m@ == "Invalid fungible: "@ + s@,
    {
        proof {
            reveal_strlit("Coin(");
            reveal_strlit("Token(");
        }
        let n = s.unicode_len();
        if n >= 6 && starts_with_lit(s, "Coin(") && s.get_char(n - 1) == ')' {
            let payload = s.substring_char(5, n - 1).to_owned();
            proof {
                assert(s@.subrange(0, 5) == "Coin("@);
            }
            Ok(Fungible::Coin(payload))
        } else if n >= 7 && starts_with_lit(s, "Token(") && s.get_char(n - 1) == ')' {
            let payload = s.substring_char(6, n - 1).to_owned();
            proof {
                assert(s@.subrange(0, 6) == "Token("@);
                assert(!is_coin_text(s@));
            }
            Ok(Fungible::Token(payload))
        } else {
            proof {
                assert(!is_coin_text(s@));
                assert(!is_token_text(s@));
            }
            let mut m = String::from_str("Invalid fungible: ");
            m.append(s);
            Err(m)
        }
    }
}

impl core::str::FromStr for Fungible {
    type Err = String;

    /// The same decoding as `parse_str`, under the std trait's name.
    fn from_str(s: &str) -> (r: Result<Self, String>)
        ensures
            (r matches Ok(f)) <==> parse_abs(s@) is Some,
            r matches Ok(f) ==> Some(f@) == parse_abs(s@),
            r matches Err(m) ==> m@ == "Invalid fungible: "@ + s@,
    {
        Fungible::parse_str(s)
    }
}

impl<'a> From<&'a Fungible> for String {
    /// The same textual form as `to_string`.
    fn from(fungible: &'a Fungible) -> (r: String)
        ensures
            r@ == format_abs(fungible@),
    {
        fungible.to_string()
    }
}

impl<'a> vstd::std_specs::convert::FromSpecImpl<&'a Fungible> for String {
    open spec fn obeys_from_spec() -> bool {
        false
    }

    open spec fn from_spec(v: &'a Fungible) -> String {
        vstd::pervasive::arbitrary()
    }
}

impl From<Fungible> for String {
    /// The same textual form as `to_string`.
    fn from(fungible: Fungible) -> (r: String)
        ensures
            r@ == format_abs(fungible@),
    {
        fungible.to_string()
    }
}

impl vstd::std_specs::convert::FromSpecImpl<Fungible> for String {
    open spec fn obeys_from_spec() -> bool {
        false
    }

    open spec fn from_spec(v: Fungible) -> String {
        vstd::pervasive::arbitrary()
    }
}

/// String round trip: for a payload free of parentheses, parsing the
/// canonical form gives back the original identifier, for both variants.
pub proof fn lemma_string_round_trip(payload: Seq<char>)
    requires
        forall|i: int| 0 <= i < payload.len() ==> payload[i] != '(' && payload[i] != ')',
    ensures
        parse_abs(format_abs(FungibleAbs::Coin(payload))) == Some(FungibleAbs::Coin(payload)),
        parse_abs(format_abs(FungibleAbs::Token(payload))) == Some(FungibleAbs::Token(payload)),
{
    reveal_strlit("Coin(");
    reveal_strlit("Token(");
    reveal_strlit(")");
    let sc = format_abs(FungibleAbs::Coin(payload));
    assert(sc.len() == 6 + payload.len());
    assert(sc.subrange(0, 5) =~= "Coin("@);
    assert(sc[sc.len() - 1] == ')');
    assert(sc.subrange(5, sc.len() - 1) =~= payload);
    let st = format_abs(FungibleAbs::Token(payload));
    assert(st.len() == 7 + payload.len());
    assert(st.subrange(0, 6) =~= "Token("@);
    assert(st[st.len() - 1] == ')');
    assert(st.subrange(6, st.len() - 1) =~= payload);
    assert(st.subrange(0, 5)[0] == 'T');
    assert(!is_coin_text(st));
}

} // verus!
