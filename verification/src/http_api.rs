use vstd::prelude::*;
use vstd::string::StringExecFns;

use crate::constants::WAGO_BOLEANO_TEST;
use crate::constants::WAGO_BYTE_TEST;
use crate::constants::WAGO_ENTERO_TEST;
use crate::constants::WAGO_REAL_TEST;
use crate::constants::WAGO_STRING_TEST;
use crate::constants::WAGO_WORD_TEST;
use crate::strings::str_eq;
use crate::value::Value;

verus! {

/// Connection half of the status answer.
#[derive(Debug, Clone, Copy, PartialEq, Eq, Structural)]
pub struct OpcuaStatus {
    pub connected: bool,
}

/// The status answer the service reports to external clients.
#[derive(Debug, PartialEq)]
pub struct StatusResponse {
    pub status: String,
    pub service: String,
    pub opcua: OpcuaStatus,
}

/// The status answer for the given connection state.
pub fn status_response(connected: bool) -> (r: StatusResponse)
    ensures
        r.status@ == "OK"@,
        r.service@ == "API-Greenex-Rust"@,
        r.opcua.connected == connected,
{
    StatusResponse {
        status: String::from_str("OK"),
        service: String::from_str("API-Greenex-Rust"),
        opcua: OpcuaStatus { connected },
    }
}

/// A write-request payload reduced to plain readings of the JSON value:
/// each field mirrors one way the value can be read, filled at the edge.
/// A real number arrives as the bit pattern of its 32-bit float, computed
/// at the edge, so no float crosses into this layer.
#[derive(Debug, PartialEq)]
pub struct WagoWritePayload {
    pub as_bool: Option<bool>,
    pub as_unsigned: Option<u64>,
    pub as_signed: Option<i64>,
    pub real_bits: Option<u32>,
    pub as_text: Option<String>,
}

/// Why a write request over the external surface was refused.
#[derive(Debug, Clone, Copy, PartialEq, Eq, Structural)]
pub enum WagoWriteError {
    /// The path names no known variable.
    UnknownVariable,
    /// The boolean variable needs a boolean payload.
    ExpectedBoolean,
    /// The numeric variable needs a numeric payload.
    ExpectedNumber,
    /// The integer variable needs an integer payload.
    ExpectedInteger,
    /// The string variable needs a string payload.
    ExpectedString,
    /// A byte must lie in 0..=255.
    ByteOutOfRange,
    /// An integer must fit sixteen signed bits.
    IntOutOfRange,
    /// A word must lie in 0..=65535.
    WordOutOfRange,
}

/// Maps an external write request onto a node id and a typed value: the
/// variable name picks the test node and the expected payload shape, and
/// out-of-range numbers are refused rather than truncated.
pub fn wago_write_command(variable: &str, payload: WagoWritePayload) -> (r: Result<
    (String, Value),
    WagoWriteError,
>)
    ensures
        variable@ == "boleano"@ ==> (match payload.as_bool {
            Some(b) => r matches Ok((nid, val)) && nid@ == WAGO_BOLEANO_TEST@ && val
                == Value::Boolean(b),
            None => r == Err::<(String, Value), WagoWriteError>(WagoWriteError::ExpectedBoolean),
        }),
        variable@ == "byte"@ ==> (match payload.as_unsigned {
            Some(n) => if n <= 255 {
                r matches Ok((nid, val)) && nid@ == WAGO_BYTE_TEST@ && val == Value::Byte(n as u8)
            } else {
                r == Err::<(String, Value), WagoWriteError>(WagoWriteError::ByteOutOfRange)
            },
            None => r == Err::<(String, Value), WagoWriteError>(WagoWriteError::ExpectedNumber),
        }),
        variable@ == "entero"@ ==> (match payload.as_signed {
            Some(n) => if -32768 <= n <= 32767 {
                r matches Ok((nid, val)) && nid@ == WAGO_ENTERO_TEST@ && val == Value::Int16(
                    n as i16,
                )
            } else {
                r == Err::<(String, Value), WagoWriteError>(WagoWriteError::IntOutOfRange)
            },
            None => r == Err::<(String, Value), WagoWriteError>(WagoWriteError::ExpectedInteger),
        }),
        variable@ == "real"@ ==> (match payload.real_bits {
            Some(bits) => r matches Ok((nid, val)) && nid@ == WAGO_REAL_TEST@ && val
                == Value::Float32Bits(bits),
            None => r == Err::<(String, Value), WagoWriteError>(WagoWriteError::ExpectedNumber),
        }),
        variable@ == "string"@ ==> (match payload.as_text {
            Some(s) => r matches Ok((nid, val)) && nid@ == WAGO_STRING_TEST@ && val == Value::Text(
                s,
            ),
            None => r == Err::<(String, Value), WagoWriteError>(WagoWriteError::ExpectedString),
        }),
        variable@ == "word"@ ==> (match payload.as_unsigned {
            Some(n) => if n <= 65535 {
                r matches Ok((nid, val)) && nid@ == WAGO_WORD_TEST@ && val == Value::UInt16(
                    n as u16,
                )
            } else {
                r == Err::<(String, Value), WagoWriteError>(WagoWriteError::WordOutOfRange)
            },
            None => r == Err::<(String, Value), WagoWriteError>(WagoWriteError::ExpectedNumber),
        }),
        variable@ != "boleano"@ && variable@ != "byte"@ && variable@ != "entero"@ && variable@
            != "real"@ && variable@ != "string"@ && variable@ != "word"@ ==> r == Err::<
            (String, Value),
            WagoWriteError,
        >(WagoWriteError::UnknownVariable),
{
    proof {
        reveal_strlit("boleano");
        reveal_strlit("byte");
        reveal_strlit("entero");
        reveal_strlit("real");
        reveal_strlit("string");
        reveal_strlit("word");
        assert("boleano"@.len() == 7);
        assert("byte"@.len() == 4);
        assert("entero"@.len() == 6);
        assert("real"@.len() == 4);
        assert("string"@.len() == 6);
        assert("word"@.len() == 4);
        assert("byte"@[0] == 'b');
        assert("real"@[0] == 'r');
        assert("word"@[0] == 'w');
        assert("entero"@[0] == 'e');
        assert("string"@[0] == 's');
    }
    if str_eq(variable, "boleano") {
        match payload.as_bool {
            Some(b) => Ok((WAGO_BOLEANO_TEST.to_owned(), Value::Boolean(b))),
            None => Err(WagoWriteError::ExpectedBoolean),
        }
    } else if str_eq(variable, "byte") {
        match payload.as_unsigned {
            Some(n) => if n <= 255 {
                Ok((WAGO_BYTE_TEST.to_owned(), Value::Byte(n as u8)))
            } else {
                Err(WagoWriteError::ByteOutOfRange)
            },
            None => Err(WagoWriteError::ExpectedNumber),
        }
    } else if str_eq(variable, "entero") {
        match payload.as_signed {
            Some(n) => if -32768 <= n && n <= 32767 {
                Ok((WAGO_ENTERO_TEST.to_owned(), Value::Int16(n as i16)))
            } else {
                Err(WagoWriteError::IntOutOfRange)
            },
            None => Err(WagoWriteError::ExpectedInteger),
        }
    } else if str_eq(variable, "real") {
        match payload.real_bits {
            Some(bits) => Ok((WAGO_REAL_TEST.to_owned(), Value::Float32Bits(bits))),
            None => Err(WagoWriteError::ExpectedNumber),
        }
    } else if str_eq(variable, "string") {
        match payload.as_text {
            Some(s) => Ok((WAGO_STRING_TEST.to_owned(), Value::Text(s))),
            None => Err(WagoWriteError::ExpectedString),
        }
    } else if str_eq(variable, "word") {
        match payload.as_unsigned {
            Some(n) => if n <= 65535 {
                Ok((WAGO_WORD_TEST.to_owned(), Value::UInt16(n as u16)))
            } else {
                Err(WagoWriteError::WordOutOfRange)
            },
            None => Err(WagoWriteError::ExpectedNumber),
        }
    } else {
        Err(WagoWriteError::UnknownVariable)
    }
}

} // verus!
