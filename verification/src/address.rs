use vstd::prelude::*;
use vstd::string::StrSliceExecFns;

use crate::strings::spec_all_digits;
use crate::strings::spec_dec_val;
use crate::strings::spec_is_digit;
use crate::strings::parse_decimal_range;

verus! {

/// The identifier part of a node address: a numeric id or a string id.
#[derive(Debug, PartialEq)]
pub enum Identifier {
    Numeric(u32),
    Text(String),
}

/// A parsed node address: namespace index plus identifier. Every protocol
/// request carries addresses in this form; the textual syntax is
/// `ns=<digits>;i=<digits>` or `ns=<digits>;s=<text>`.
#[derive(Debug, PartialEq)]
pub struct NodeAddress {
    pub namespace: u16,
    pub identifier: Identifier,
}

/// Mathematical image of an identifier.
pub enum IdentifierView {
    Numeric(nat),
    Text(Seq<char>),
}

/// Mathematical image of a node address.
pub struct AddressView {
    pub namespace: nat,
    pub identifier: IdentifierView,
}

impl View for NodeAddress {
    type V = AddressView;

    open spec fn view(&self) -> AddressView {
        AddressView {
            namespace: self.namespace as nat,
            identifier: match self.identifier {
                Identifier::Numeric(n) => IdentifierView::Numeric(n as nat),
                Identifier::Text(s) => IdentifierView::Text(s@),
            },
        }
    }
}

/// First position at or after `i` holding a non-digit (or the end of `s`).
pub open spec fn spec_digit_run_end(s: Seq<char>, i: int) -> int
    recommends
        0 <= i <= s.len(),
    decreases s.len() - i,
{
    if i >= s.len() || !spec_is_digit(s[i]) {
        i
    } else {
        spec_digit_run_end(s, i + 1)
    }
}

/// A digit run ends exactly where the digits stop.
pub proof fn lemma_digit_run_end_characterize(s: Seq<char>, i: int, e: int)
    requires
        0 <= i <= e <= s.len(),
        forall|j: int| i <= j < e ==> spec_is_digit(#[trigger] s[j]),
        e == s.len() || !spec_is_digit(s[e]),
    ensures
        spec_digit_run_end(s, i) == e,
    decreases e - i,
{
    if i < e {
        lemma_digit_run_end_characterize(s, i + 1, e);
    }
}

/// The node-address grammar: `ns=` then a decimal namespace index that fits
/// sixteen bits, `;`, then either `i=` with a decimal identifier that fits
/// thirty-two bits, or `s=` with a non-empty string identifier.
pub open spec fn spec_parse_node_id(s: Seq<char>) -> Option<AddressView> {
    if s.len() < 3 || s[0] != 'n' || s[1] != 's' || s[2] != '=' {
        None
    } else {
        let e = spec_digit_run_end(s, 3);
        if e == 3 || spec_dec_val(s.subrange(3, e)) > 65535 {
            None
        } else if e >= s.len() || s[e] != ';' {
            None
        } else if s.len() < e + 3 || s[e + 2] != '=' {
            None
        } else if s[e + 1] == 'i' {
            let body = s.subrange(e + 3, s.len() as int);
            if body.len() == 0 || !spec_all_digits(body) || spec_dec_val(body) > 4294967295 {
                None
            } else {
                Some(
                    AddressView {
                        namespace: spec_dec_val(s.subrange(3, e)),
                        identifier: IdentifierView::Numeric(spec_dec_val(body)),
                    },
                )
            }
        } else if s[e + 1] == 's' {
            let body = s.subrange(e + 3, s.len() as int);
            if body.len() == 0 {
                None
            } else {
                Some(
                    AddressView {
                        namespace: spec_dec_val(s.subrange(3, e)),
                        identifier: IdentifierView::Text(body),
                    },
                )
            }
        } else {
            None
        }
    }
}

/// Scans the digit run of `s` that starts at `i`.
fn digit_run_end(s: &str, i: usize) -> (e: usize)
    requires
        i <= s@.len(),
    ensures
        i <= e <= s@.len(),
        e == spec_digit_run_end(s@, i as int),
        forall|j: int| i <= j < e ==> spec_is_digit(#[trigger] s@[j]),
        e == s@.len() || !spec_is_digit(s@[e as int]),
{
    let len = s.unicode_len();
    let mut e: usize = i;
    while e < len
        invariant
            i <= e <= len,
            len == s@.len(),
            forall|j: int| i <= j < e ==> spec_is_digit(#[trigger] s@[j]),
        decreases len - e,
    {
        let c = s.get_char(e);
        let cv = c as u32;
        if cv < 48 || cv > 57 {
            proof {
                lemma_digit_run_end_characterize(s@, i as int, e as int);
            }
            return e;
        }
        e += 1;
    }
    proof {
        lemma_digit_run_end_characterize(s@, i as int, e as int);
    }
    e
}

/// Parses a textual node id against the address grammar. Returns the
/// address exactly on the inputs the grammar accepts.
pub fn parse_node_id(s: &str) -> (r: Option<NodeAddress>)
    ensures
        r is Some <==> spec_parse_node_id(s@) is Some,
        r matches Some(a) ==> spec_parse_node_id(s@) == Some(a@),
{
    let len = s.unicode_len();
    if len < 3 {
        return None;
    }
    if s.get_char(0) != 'n' || s.get_char(1) != 's' || s.get_char(2) != '=' {
        return None;
    }
    let e = digit_run_end(s, 3);
    if e == 3 {
        return None;
    }
    let ns: u64 = match parse_decimal_range(s, 3, e, 65535) {
        Some(v) => v,
        None => {
            return None;
        },
    };
    if e == len {
        return None;
    }
    if s.get_char(e) != ';' {
        return None;
    }
    if len - e < 3 {
        return None;
    }
    if s.get_char(e + 2) != '=' {
        return None;
    }
    let kind = s.get_char(e + 1);
    if kind == 'i' {
        let v: u64 = match parse_decimal_range(s, e + 3, len, 4294967295) {
            Some(v) => v,
            None => {
                return None;
            },
        };
        Some(
            NodeAddress {
                namespace: ns as u16,
                identifier: Identifier::Numeric(v as u32),
            },
        )
    } else if kind == 's' {
        if len - e == 3 {
            return None;
        }
        let body = s.substring_char(e + 3, len);
        Some(
            NodeAddress {
                namespace: ns as u16,
                identifier: Identifier::Text(body.to_owned()),
            },
        )
    } else {
        None
    }
}

} // verus!
