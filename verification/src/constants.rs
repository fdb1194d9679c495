use vstd::prelude::*;
use vstd::string::StringExecFns;

use crate::address::AddressView;
use crate::address::IdentifierView;
use crate::address::lemma_digit_run_end_characterize;
use crate::address::spec_digit_run_end;
use crate::address::spec_parse_node_id;
use crate::strings::lemma_dec_digits_props;
use crate::strings::push_decimal;
use crate::strings::spec_contains;
use crate::strings::spec_dec_digits;
use crate::strings::spec_dec_val;
use crate::strings::spec_digit_char;
use crate::strings::spec_is_digit;
use crate::strings::str_contains;

verus! {

/// Namespace index all well-known nodes live in.
pub const OPCUA_NAMESPACE: u16 = 4;

/// Numeric id of the segregation-method node.
pub const OPCUA_SEGREGATION_METHOD: u32 = 2;

/// Request timeout, in seconds, for individual protocol calls.
pub const OPCUA_TIMEOUT_SECS: u64 = 3;

/// Well-known node ids.
pub const DEFAULT_HEARTBEAT_NODE: &'static str = "ns=4;i=3";

pub const DEFAULT_SEGREGATION_NODE: &'static str = "ns=4;i=2";

/// Operator-facing subscription labels.
pub const HEARTBEAT_SUBSCRIPTION: &'static str = "heartbeat_subscription";

pub const SEGREGATION_SUBSCRIPTION: &'static str = "segregation_subscription";

pub const DEFAULT_SUBSCRIPTION: &'static str = "default_subscription";

pub const WAGO_VECTOR_SUBSCRIPTION: &'static str = "wago_vector_subscription";

/// Scalar test nodes on the WAGO controller.
pub const WAGO_BOLEANO_TEST: &'static str = "ns=4;s=|var|WAGO TEST.Application.DB_OPC.BoleanoTest";

pub const WAGO_BYTE_TEST: &'static str = "ns=4;s=|var|WAGO TEST.Application.DB_OPC.ByteTest";

pub const WAGO_ENTERO_TEST: &'static str = "ns=4;s=|var|WAGO TEST.Application.DB_OPC.EnteroTest";

pub const WAGO_REAL_TEST: &'static str = "ns=4;s=|var|WAGO TEST.Application.DB_OPC.RealTest";

pub const WAGO_STRING_TEST: &'static str = "ns=4;s=|var|WAGO TEST.Application.DB_OPC.StringTest";

pub const WAGO_WORD_TEST: &'static str = "ns=4;s=|var|WAGO TEST.Application.DB_OPC.WordTest";

/// Vector test nodes on the WAGO controller.
pub const WAGO_VECTOR_BOOL: &'static str = "ns=4;s=|var|WAGO TEST.Application.DB_OPC.VectorBool";

pub const WAGO_VECTOR_INT: &'static str = "ns=4;s=|var|WAGO TEST.Application.DB_OPC.VectorInt";

pub const WAGO_VECTOR_WORD: &'static str = "ns=4;s=|var|WAGO TEST.Application.DB_OPC.VectorWord";

/// The kinds of WAGO test nodes the reactive logic distinguishes.
#[derive(Debug, Clone, Copy, PartialEq, Eq, Structural)]
pub enum WagoNodeType {
    BoleanoTest,
    ByteTest,
    EnteroTest,
    RealTest,
    StringTest,
    WordTest,
    VectorBool,
    VectorInt,
    VectorWord,
}

/// Which kind a node id denotes: the first marker substring that occurs in
/// it, in the order below.
pub open spec fn spec_from_node_id(s: Seq<char>) -> Option<WagoNodeType> {
    if spec_contains(s, "BoleanoTest"@) {
        Some(WagoNodeType::BoleanoTest)
    } else if spec_contains(s, "ByteTest"@) {
        Some(WagoNodeType::ByteTest)
    } else if spec_contains(s, "EnteroTest"@) {
        Some(WagoNodeType::EnteroTest)
    } else if spec_contains(s, "RealTest"@) {
        Some(WagoNodeType::RealTest)
    } else if spec_contains(s, "StringTest"@) {
        Some(WagoNodeType::StringTest)
    } else if spec_contains(s, "WordTest"@) {
        Some(WagoNodeType::WordTest)
    } else if spec_contains(s, "VectorBool"@) {
        Some(WagoNodeType::VectorBool)
    } else if spec_contains(s, "VectorInt"@) {
        Some(WagoNodeType::VectorInt)
    } else if spec_contains(s, "VectorWord"@) {
        Some(WagoNodeType::VectorWord)
    } else {
        None
    }
}

/// The full node id each kind stands for.
pub open spec fn spec_wago_node_id(t: WagoNodeType) -> Seq<char> {
    match t {
        WagoNodeType::BoleanoTest => "ns=4;s=|var|WAGO TEST.Application.DB_OPC.BoleanoTest"@,
        WagoNodeType::ByteTest => "ns=4;s=|var|WAGO TEST.Application.DB_OPC.ByteTest"@,
        WagoNodeType::EnteroTest => "ns=4;s=|var|WAGO TEST.Application.DB_OPC.EnteroTest"@,
        WagoNodeType::RealTest => "ns=4;s=|var|WAGO TEST.Application.DB_OPC.RealTest"@,
        WagoNodeType::StringTest => "ns=4;s=|var|WAGO TEST.Application.DB_OPC.StringTest"@,
        WagoNodeType::WordTest => "ns=4;s=|var|WAGO TEST.Application.DB_OPC.WordTest"@,
        WagoNodeType::VectorBool => "ns=4;s=|var|WAGO TEST.Application.DB_OPC.VectorBool"@,
        WagoNodeType::VectorInt => "ns=4;s=|var|WAGO TEST.Application.DB_OPC.VectorInt"@,
        WagoNodeType::VectorWord => "ns=4;s=|var|WAGO TEST.Application.DB_OPC.VectorWord"@,
    }
}

/// The variant's short label.
pub open spec fn spec_wago_label(t: WagoNodeType) -> Seq<char> {
    match t {
        WagoNodeType::BoleanoTest => "BoleanoTest"@,
        WagoNodeType::ByteTest => "ByteTest"@,
        WagoNodeType::EnteroTest => "EnteroTest"@,
        WagoNodeType::RealTest => "RealTest"@,
        WagoNodeType::StringTest => "StringTest"@,
        WagoNodeType::WordTest => "WordTest"@,
        WagoNodeType::VectorBool => "VectorBool"@,
        WagoNodeType::VectorInt => "VectorInt"@,
        WagoNodeType::VectorWord => "VectorWord"@,
    }
}

impl WagoNodeType {
    /// Classifies a node id by the marker substrings, first match wins.
    pub fn from_node_id(node_id: &str) -> (r: Option<Self>)
        ensures
            r == spec_from_node_id(node_id@),
    {
        if str_contains(node_id, "BoleanoTest") {
            Some(Self::BoleanoTest)
        } else if str_contains(node_id, "ByteTest") {
            Some(Self::ByteTest)
        } else if str_contains(node_id, "EnteroTest") {
            Some(Self::EnteroTest)
        } else if str_contains(node_id, "RealTest") {
            Some(Self::RealTest)
        } else if str_contains(node_id, "StringTest") {
            Some(Self::StringTest)
        } else if str_contains(node_id, "WordTest") {
            Some(Self::WordTest)
        } else if str_contains(node_id, "VectorBool") {
            Some(Self::VectorBool)
        } else if str_contains(node_id, "VectorInt") {
            Some(Self::VectorInt)
        } else if str_contains(node_id, "VectorWord") {
            Some(Self::VectorWord)
        } else {
            None
        }
    }

    /// The full node id this kind addresses.
    pub fn node_id(&self) -> (r: &'static str)
        ensures
            r@ == spec_wago_node_id(*self),
    {
        match self {
            Self::BoleanoTest => WAGO_BOLEANO_TEST,
            Self::ByteTest => WAGO_BYTE_TEST,
            Self::EnteroTest => WAGO_ENTERO_TEST,
            Self::RealTest => WAGO_REAL_TEST,
            Self::StringTest => WAGO_STRING_TEST,
            Self::WordTest => WAGO_WORD_TEST,
            Self::VectorBool => WAGO_VECTOR_BOOL,
            Self::VectorInt => WAGO_VECTOR_INT,
            Self::VectorWord => WAGO_VECTOR_WORD,
        }
    }

    /// The variant's short label, for operator-facing messages.
    pub fn label(&self) -> (r: String)
        ensures
            r@ == spec_wago_label(*self),
    {
        match self {
            Self::BoleanoTest => String::from_str("BoleanoTest"),
            Self::ByteTest => String::from_str("ByteTest"),
            Self::EnteroTest => String::from_str("EnteroTest"),
            Self::RealTest => String::from_str("RealTest"),
            Self::StringTest => String::from_str("StringTest"),
            Self::WordTest => String::from_str("WordTest"),
            Self::VectorBool => String::from_str("VectorBool"),
            Self::VectorInt => String::from_str("VectorInt"),
            Self::VectorWord => String::from_str("VectorWord"),
        }
    }
}

/// Builds `ns=<namespace>;i=<identifier>` for a numeric node id in the
/// well-known namespace.
pub fn build_node_id(identifier: u32) -> (r: String)
    ensures
        r@ == "ns="@ + spec_dec_digits(OPCUA_NAMESPACE as nat) + ";i="@ + spec_dec_digits(
            identifier as nat,
        ),
{
    let mut s = String::new();
    s.append("ns=");
    push_decimal(&mut s, OPCUA_NAMESPACE as u32);
    s.append(";i=");
    push_decimal(&mut s, identifier);
    proof {
        assert(s@ =~= "ns="@ + spec_dec_digits(OPCUA_NAMESPACE as nat) + ";i="@
            + spec_dec_digits(identifier as nat));
    }
    s
}

/// Round trip through the address grammar: the string `build_node_id`
/// yields parses back to exactly the address it was built for — the
/// well-known namespace with that numeric identifier.
pub proof fn lemma_build_node_id_parses(identifier: u32)
    ensures
        spec_parse_node_id(
            "ns="@ + spec_dec_digits(OPCUA_NAMESPACE as nat) + ";i="@ + spec_dec_digits(
                identifier as nat,
            ),
        ) == Some(
            AddressView {
                namespace: OPCUA_NAMESPACE as nat,
                identifier: IdentifierView::Numeric(identifier as nat),
            },
        ),
{
    reveal_strlit("ns=");
    reveal_strlit(";i=");
    let a = "ns="@;
    let b = spec_dec_digits(OPCUA_NAMESPACE as nat);
    let c = ";i="@;
    let d = spec_dec_digits(identifier as nat);
    let s = a + b + c + d;
    lemma_dec_digits_props(OPCUA_NAMESPACE as nat);
    lemma_dec_digits_props(identifier as nat);
    assert(b =~= seq![spec_digit_char(4)]);
    assert(a.len() == 3);
    assert(c.len() == 3);
    assert(s.len() == 7 + d.len());
    assert(s[0] == 'n');
    assert(s[1] == 's');
    assert(s[2] == '=');
    assert(s[3] == spec_digit_char(4));
    assert(spec_is_digit(s[3]));
    assert(s[4] == ';');
    assert(!spec_is_digit(';'));
    assert(s[5] == 'i');
    assert(s[6] == '=');
    lemma_digit_run_end_characterize(s, 3, 4);
    assert(spec_digit_run_end(s, 3) == 4);
    assert(s.subrange(3, 4) =~= b);
    assert(spec_dec_val(s.subrange(3, 4)) == OPCUA_NAMESPACE as nat);
    assert(s.subrange(7, s.len() as int) =~= d);
    assert(spec_dec_val(d) == identifier as nat);
    assert(spec_parse_node_id(s) == Some(
        AddressView {
            namespace: OPCUA_NAMESPACE as nat,
            identifier: IdentifierView::Numeric(identifier as nat),
        },
    ));
}

/// Builds `ns=<namespace>;s=<identifier>` for a string node id in the
/// well-known namespace.
pub fn build_node_id_string(identifier: &str) -> (r: String)
    ensures
        r@ == "ns="@ + spec_dec_digits(OPCUA_NAMESPACE as nat) + ";s="@ + identifier@,
{
    let mut s = String::new();
    s.append("ns=");
    push_decimal(&mut s, OPCUA_NAMESPACE as u32);
    s.append(";s=");
    s.append(identifier);
    proof {
        assert(s@ =~= "ns="@ + spec_dec_digits(OPCUA_NAMESPACE as nat) + ";s="@ + identifier@);
    }
    s
}

} // verus!
