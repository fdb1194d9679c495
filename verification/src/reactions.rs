use vstd::prelude::*;
use vstd::string::StringExecFns;

use crate::constants::WAGO_BOLEANO_TEST;
use crate::constants::WAGO_BYTE_TEST;
use crate::constants::WAGO_ENTERO_TEST;
use crate::constants::WAGO_REAL_TEST;
use crate::constants::WAGO_STRING_TEST;
use crate::constants::WAGO_WORD_TEST;
use crate::strings::push_decimal;
use crate::strings::spec_contains;
use crate::strings::spec_dec_digits;
use crate::strings::str_contains;
use crate::value::Value;
use crate::value::WriteRequest;

verus! {

/// The first element of an array value when it is a boolean.
pub open spec fn spec_first_bool(v: Value) -> Option<bool> {
    match v {
        Value::Array(items) => if items@.len() > 0 {
            match items@[0] {
                Value::Boolean(b) => Some(b),
                _ => None,
            }
        } else {
            None
        },
        _ => None,
    }
}

/// The first element of an array value when it is a signed sixteen-bit
/// integer.
pub open spec fn spec_first_int16(v: Value) -> Option<i16> {
    match v {
        Value::Array(items) => if items@.len() > 0 {
            match items@[0] {
                Value::Int16(n) => Some(n),
                _ => None,
            }
        } else {
            None
        },
        _ => None,
    }
}

/// The first element of an array value when it is an unsigned sixteen-bit
/// integer.
pub open spec fn spec_first_uint16(v: Value) -> Option<u16> {
    match v {
        Value::Array(items) => if items@.len() > 0 {
            match items@[0] {
                Value::UInt16(n) => Some(n),
                _ => None,
            }
        } else {
            None
        },
        _ => None,
    }
}

/// Wrapping successor on signed sixteen-bit values.
pub open spec fn spec_i16_wrap_inc(n: i16) -> i16 {
    if n == 32767 {
        (-32768) as i16
    } else {
        (n + 1) as i16
    }
}

/// Wrapping addition of ten on unsigned sixteen-bit values.
pub open spec fn spec_u16_wrap_add10(w: u16) -> u16 {
    if w + 10 > 65535 {
        (w + 10 - 65536) as u16
    } else {
        (w + 10) as u16
    }
}

/// The reactive rule for vector notifications: a VectorBool change queues
/// the negated first element to the boolean test node; a VectorInt change
/// queues the wrapping successor of the first element to the integer test
/// node; a VectorWord change queues the first element plus ten (wrapping)
/// to the word test node and a `Word_<n>` text to the string test node.
/// Markers are tried in that order, and a value of the wrong shape derives
/// nothing.
pub fn derive_vector_reactions(node_id: &str, value: &Value) -> (out: Vec<WriteRequest>)
    ensures
        spec_contains(node_id@, "VectorBool"@) ==> (spec_first_bool(*value) matches Some(b) ==> (
        out@.len() == 1 && out@[0].node_id@ == WAGO_BOLEANO_TEST@ && out@[0].value
            == Value::Boolean(!b))),
        spec_contains(node_id@, "VectorBool"@) && spec_first_bool(*value) is None ==> out@.len()
            == 0,
        !spec_contains(node_id@, "VectorBool"@) && spec_contains(node_id@, "VectorInt"@) ==> (
        spec_first_int16(*value) matches Some(n) ==> (out@.len() == 1 && out@[0].node_id@
            == WAGO_ENTERO_TEST@ && out@[0].value == Value::Int16(spec_i16_wrap_inc(n)))),
        !spec_contains(node_id@, "VectorBool"@) && spec_contains(node_id@, "VectorInt"@)
            && spec_first_int16(*value) is None ==> out@.len() == 0,
        !spec_contains(node_id@, "VectorBool"@) && !spec_contains(node_id@, "VectorInt"@)
            && spec_contains(node_id@, "VectorWord"@) ==> (spec_first_uint16(*value) matches Some(
            w,
        ) ==> (out@.len() == 2 && out@[0].node_id@ == WAGO_WORD_TEST@ && out@[0].value
            == Value::UInt16(spec_u16_wrap_add10(w)) && out@[1].node_id@ == WAGO_STRING_TEST@ && (
        out@[1].value matches Value::Text(t) && t@ == "Word_"@ + spec_dec_digits(w as nat)))),
        !spec_contains(node_id@, "VectorBool"@) && !spec_contains(node_id@, "VectorInt"@)
            && spec_contains(node_id@, "VectorWord"@) && spec_first_uint16(*value) is None
            ==> out@.len() == 0,
        !spec_contains(node_id@, "VectorBool"@) && !spec_contains(node_id@, "VectorInt"@)
            && !spec_contains(node_id@, "VectorWord"@) ==> out@.len() == 0,
{
    let mut out: Vec<WriteRequest> = Vec::new();
    if str_contains(node_id, "VectorBool") {
        if let Value::Array(items) = value {
            if items.len() > 0 {
                if let Value::Boolean(b) = &items[0] {
                    out.push(
                        WriteRequest {
                            node_id: WAGO_BOLEANO_TEST.to_owned(),
                            value: Value::Boolean(!*b),
                        },
                    );
                }
            }
        }
    } else if str_contains(node_id, "VectorInt") {
        if let Value::Array(items) = value {
            if items.len() > 0 {
                if let Value::Int16(n) = &items[0] {
                    let next: i16 = if *n == 32767i16 {
                        -32768i16
                    } else {
                        *n + 1
                    };
                    out.push(
                        WriteRequest {
                            node_id: WAGO_ENTERO_TEST.to_owned(),
                            value: Value::Int16(next),
                        },
                    );
                }
            }
        }
    } else if str_contains(node_id, "VectorWord") {
        if let Value::Array(items) = value {
            if items.len() > 0 {
                if let Value::UInt16(w) = &items[0] {
                    let next: u16 = if *w > 65525u16 {
                        (*w - 65526u16)
                    } else {
                        *w + 10
                    };
                    out.push(
                        WriteRequest {
                            node_id: WAGO_WORD_TEST.to_owned(),
                            value: Value::UInt16(next),
                        },
                    );
                    let mut label = String::new();
                    label.append("Word_");
                    push_decimal(&mut label, *w as u32);
                    proof {
                        assert(label@ =~= "Word_"@ + spec_dec_digits(*w as nat));
                    }
                    out.push(
                        WriteRequest { node_id: WAGO_STRING_TEST.to_owned(), value: Value::Text(label) },
                    );
                }
            }
        }
    }
    out
}

/// The periodic exercise cycle: the six scalar test writes derived from a
/// post-epoch timestamp, in the fixed order boolean, byte, integer, real,
/// string, word. The real value is float work, so its bit pattern is
/// computed at the edge and carried through unchanged.
pub fn wago_cycle_writes(timestamp: i64, real_bits: u32) -> (out: Vec<WriteRequest>)
    requires
        timestamp >= 0,
    ensures
        out@.len() == 6,
        out@[0].node_id@ == WAGO_BOLEANO_TEST@ && out@[0].value == Value::Boolean(
            (timestamp as u64) % 2 == 0,
        ),
        out@[1].node_id@ == WAGO_BYTE_TEST@ && out@[1].value == Value::Byte(
            ((timestamp as u64) % 256) as u8,
        ),
        out@[2].node_id@ == WAGO_ENTERO_TEST@ && out@[2].value == Value::Int16(
            ((timestamp as u64) % 32768) as i16,
        ),
        out@[3].node_id@ == WAGO_REAL_TEST@ && out@[3].value == Value::Float32Bits(real_bits),
        out@[4].node_id@ == WAGO_STRING_TEST@ && (out@[4].value matches Value::Text(t) && t@
            == "LoopTest-"@ + spec_dec_digits(((timestamp as u64) % 1000) as nat)),
        out@[5].node_id@ == WAGO_WORD_TEST@ && out@[5].value == Value::UInt16(
            ((timestamp as u64) % 65536) as u16,
        ),
{
    let t = timestamp as u64;
    let mut label = String::new();
    label.append("LoopTest-");
    push_decimal(&mut label, (t % 1000) as u32);
    proof {
        assert(label@ =~= "LoopTest-"@ + spec_dec_digits((t % 1000) as nat));
    }
    let mut out: Vec<WriteRequest> = Vec::new();
    out.push(
        WriteRequest { node_id: WAGO_BOLEANO_TEST.to_owned(), value: Value::Boolean(t % 2 == 0) },
    );
    out.push(
        WriteRequest { node_id: WAGO_BYTE_TEST.to_owned(), value: Value::Byte((t % 256) as u8) },
    );
    out.push(
        WriteRequest {
            node_id: WAGO_ENTERO_TEST.to_owned(),
            value: Value::Int16((t % 32768) as i16),
        },
    );
    out.push(
        WriteRequest { node_id: WAGO_REAL_TEST.to_owned(), value: Value::Float32Bits(real_bits) },
    );
    out.push(WriteRequest { node_id: WAGO_STRING_TEST.to_owned(), value: Value::Text(label) });
    out.push(
        WriteRequest {
            node_id: WAGO_WORD_TEST.to_owned(),
            value: Value::UInt16((t % 65536) as u16),
        },
    );
    out
}

} // verus!
