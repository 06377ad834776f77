//! The registry of 128-bit GATT identifiers: every service and characteristic
//! of the camera is named by a four-digit hexadecimal code that is substituted
//! into one vendor template, `b5f9XXXX-aa8d-11e3-9046-0002a5d5c51b`.
//!
//! A full identifier is carried as the `u128` whose big-endian bytes are the
//! identifier's bytes, which is what `uuid::Uuid::as_u128` gives.

use vstd::arithmetic::power::pow;
use vstd::prelude::*;

verus! {

/// `c` is one of `0-9`, `a-f`, `A-F`.
pub open spec fn is_hex_digit(c: char) -> bool {
    ('0' <= c && c <= '9') || ('a' <= c && c <= 'f') || ('A' <= c && c <= 'F')
}

/// The value of one hexadecimal digit.
pub open spec fn hex_digit_value(c: char) -> nat {
    if '0' <= c && c <= '9' {
        (c as u32 - '0' as u32) as nat
    } else if 'a' <= c && c <= 'f' {
        (c as u32 - 'a' as u32 + 10) as nat
    } else {
        (c as u32 - 'A' as u32 + 10) as nat
    }
}

/// The number that a string of hexadecimal digits spells, most significant
/// digit first.
pub open spec fn hex_value(s: Seq<char>) -> nat
    decreases s.len(),
{
    if s.len() == 0 {
        0
    } else {
        hex_value(s.drop_last()) * 16 + hex_digit_value(s.last())
    }
}

/// A short protocol code: exactly four hexadecimal digits.
pub open spec fn is_short_code(code: Seq<char>) -> bool {
    code.len() == 4 && forall|i: int| 0 <= i < 4 ==> is_hex_digit(#[trigger] code[i])
}

/// Whether position `i` of a hyphenated identifier holds a hyphen.
pub open spec fn is_hyphen_position(i: int) -> bool {
    i == 8 || i == 13 || i == 18 || i == 23
}

/// The textual form `xxxxxxxx-xxxx-xxxx-xxxx-xxxxxxxxxxxx` of an identifier.
pub open spec fn is_hyphenated(s: Seq<char>) -> bool {
    &&& s.len() == 36
    &&& forall|i: int|
        0 <= i < 36 ==> if is_hyphen_position(i) {
            #[trigger] s[i] == '-'
        } else {
            is_hex_digit(s[i])
        }
}

/// The 128-bit value of a hyphenated identifier: its 32 digits read as one
/// number.
pub open spec fn uuid_value(s: Seq<char>) -> nat {
    hex_value(
        s.subrange(0, 8) + s.subrange(9, 13) + s.subrange(14, 18) + s.subrange(19, 23)
            + s.subrange(24, 36),
    )
}

/// The vendor template with `code` in its second field.
pub open spec fn uuid_text(code: Seq<char>) -> Seq<char> {
    seq!['b', '5', 'f', '9'] + code + seq![
        '-', 'a', 'a', '8', 'd', '-', '1', '1', 'e', '3', '-', '9', '0', '4', '6', '-',
        '0', '0', '0', '2', 'a', '5', 'd', '5', 'c', '5', '1', 'b',
    ]
}

/// Relies on `uuid::Uuid::parse_str` and `uuid::Uuid::as_u128`: a hyphenated
/// string of 32 hexadecimal digits (either case) parses, and its value is the
/// number those digits spell, most significant first.
#[verifier::external_body]
fn parse_uuid(text: &str) -> (r: Option<u128>)
    ensures
        is_hyphenated(text@) ==> r is Some && r.unwrap() == uuid_value(text@),
{
    match uuid::Uuid::parse_str(text) {
        Ok(u) => Some(u.as_u128()),
        Err(_) => None,
    }
}

/// Expands a four-digit protocol code into the full 128-bit identifier.
pub fn expand(code: &str) -> (r: u128)
    requires
        is_short_code(code@),
    ensures
        r == uuid_value(uuid_text(code@)),
{
    let mut text = String::from_str("b5f9");
    text.append(code);
    text.append("-aa8d-11e3-9046-0002a5d5c51b");
    proof {
        reveal_strlit("b5f9");
        reveal_strlit("-aa8d-11e3-9046-0002a5d5c51b");
        assert(text@ =~= uuid_text(code@));
        assert forall|i: int| 0 <= i < 36 implies if is_hyphen_position(i) {
            #[trigger] text@[i] == '-'
        } else {
            is_hex_digit(text@[i])
        } by {
            if 4 <= i < 8 {
                assert(text@[i] == code@[i - 4]);
            }
        }
    }
    parse_uuid(text.as_str()).unwrap()
}

/// Types whose values name a GATT service or characteristic of the camera.
pub trait ToUUID {
    /// The four-digit code of the service or characteristic.
    spec fn short_code(&self) -> Seq<char>;

    /// The full 128-bit identifier.
    fn to_uuid(&self) -> (r: u128)
        ensures
            r == uuid_value(uuid_text(self.short_code())),
    ;
}

/// The services that a camera offers.
pub enum GoProServices {
    GoProWiFiAp,
    GoProCamManagement,
    ControlAndQuery,
}

impl ToUUID for GoProServices {
    open spec fn short_code(&self) -> Seq<char> {
        match self {
            GoProServices::GoProWiFiAp => "0001"@,
            GoProServices::GoProCamManagement => "0090"@,
            GoProServices::ControlAndQuery => "FEA6"@,
        }
    }

    fn to_uuid(&self) -> (r: u128) {
        proof {
            reveal_strlit("0001");
            reveal_strlit("0090");
            reveal_strlit("FEA6");
        }
        match self {
            GoProServices::GoProWiFiAp => expand("0001"),
            GoProServices::GoProCamManagement => expand("0090"),
            GoProServices::ControlAndQuery => expand("FEA6"),
        }
    }
}

/// The characteristics of the WiFi access point service.
pub enum GoProWifiApCharacteristics {
    SSID,
    Password,
    Power,
    State,
}

impl ToUUID for GoProWifiApCharacteristics {
    open spec fn short_code(&self) -> Seq<char> {
        match self {
            GoProWifiApCharacteristics::SSID => "0002"@,
            GoProWifiApCharacteristics::Password => "0003"@,
            GoProWifiApCharacteristics::Power => "0004"@,
            GoProWifiApCharacteristics::State => "0005"@,
        }
    }

    fn to_uuid(&self) -> (r: u128) {
        proof {
            reveal_strlit("0002");
            reveal_strlit("0003");
            reveal_strlit("0004");
            reveal_strlit("0005");
        }
        match self {
            GoProWifiApCharacteristics::SSID => expand("0002"),
            GoProWifiApCharacteristics::Password => expand("0003"),
            GoProWifiApCharacteristics::Power => expand("0004"),
            GoProWifiApCharacteristics::State => expand("0005"),
        }
    }
}

/// The characteristics of the camera management service.
pub enum GoProManagementCharacteristics {
    NetworkManagementCommand,
    NetworkManagementResponse,
}

impl ToUUID for GoProManagementCharacteristics {
    open spec fn short_code(&self) -> Seq<char> {
        match self {
            GoProManagementCharacteristics::NetworkManagementCommand => "0091"@,
            GoProManagementCharacteristics::NetworkManagementResponse => "0092"@,
        }
    }

    fn to_uuid(&self) -> (r: u128) {
        proof {
            reveal_strlit("0091");
            reveal_strlit("0092");
        }
        match self {
            GoProManagementCharacteristics::NetworkManagementCommand => expand("0091"),
            GoProManagementCharacteristics::NetworkManagementResponse => expand("0092"),
        }
    }
}

/// The characteristics of the control and query service: each request
/// characteristic is paired with the one on which its answer arrives.
pub enum GoProControlAndQueryCharacteristics {
    Command,
    CommandResponse,
    Settings,
    SettingsResponse,
    Query,
    QueryResponse,
}

impl ToUUID for GoProControlAndQueryCharacteristics {
    open spec fn short_code(&self) -> Seq<char> {
        match self {
            GoProControlAndQueryCharacteristics::Command => "0072"@,
            GoProControlAndQueryCharacteristics::CommandResponse => "0073"@,
            GoProControlAndQueryCharacteristics::Settings => "0074"@,
            GoProControlAndQueryCharacteristics::SettingsResponse => "0075"@,
            GoProControlAndQueryCharacteristics::Query => "0076"@,
            GoProControlAndQueryCharacteristics::QueryResponse => "0077"@,
        }
    }

    fn to_uuid(&self) -> (r: u128) {
        proof {
            reveal_strlit("0072");
            reveal_strlit("0073");
            reveal_strlit("0074");
            reveal_strlit("0075");
            reveal_strlit("0076");
            reveal_strlit("0077");
        }
        match self {
            GoProControlAndQueryCharacteristics::Command => expand("0072"),
            GoProControlAndQueryCharacteristics::CommandResponse => expand("0073"),
            GoProControlAndQueryCharacteristics::Settings => expand("0074"),
            GoProControlAndQueryCharacteristics::SettingsResponse => expand("0075"),
            GoProControlAndQueryCharacteristics::Query => expand("0076"),
            GoProControlAndQueryCharacteristics::QueryResponse => expand("0077"),
        }
    }
}

/// Values that can be written to the camera: each has one fixed frame and one
/// fixed acknowledgment that the camera sends back when it accepts it.
pub trait Sendable {
    /// The frame written for this value.
    spec fn wire_bytes(&self) -> Seq<u8>;

    /// The acknowledgment expected for this value.
    spec fn ack_bytes(&self) -> Seq<u8>;

    /// The frame written for this value; never empty.
    fn as_bytes(&self) -> (r: &'static [u8])
        ensures
            r@ == self.wire_bytes(),
            r@.len() > 0,
    ;

    /// The acknowledgment expected for this value.
    fn response_value_bytes(&self) -> (r: &'static [u8])
        ensures
            r@ == self.ack_bytes(),
    ;
}

/// Appending digits shifts the value of the first part by four bits per
/// appended digit.
pub proof fn lemma_hex_value_append(a: Seq<char>, b: Seq<char>)
    ensures
        hex_value(a + b) == hex_value(a) * pow(16, b.len()) + hex_value(b),
    decreases b.len(),
{
    if b.len() == 0 {
        assert(a + b =~= a);
        reveal(pow);
    } else {
        let c = a + b;
        assert(c.drop_last() =~= a + b.drop_last());
        assert(c.last() == b.last());
        lemma_hex_value_append(a, b.drop_last());
        lemma_pow_successor(b.len());
        let x = hex_value(a);
        let p = pow(16, (b.len() - 1) as nat);
        let y = hex_value(b.drop_last());
        assert((x * p + y) * 16 == x * (16 * p) + y * 16) by (nonlinear_arith);
    }
}

proof fn lemma_pow_successor(n: nat)
    requires
        n > 0,
    ensures
        pow(16, n) == 16 * pow(16, (n - 1) as nat),
{
    reveal(pow);
}

/// The value of four hexadecimal digits.
proof fn lemma_hex_value_four(s: Seq<char>)
    requires
        s.len() == 4,
    ensures
        hex_value(s) == hex_digit_value(s[0]) * 4096 + hex_digit_value(s[1]) * 256
            + hex_digit_value(s[2]) * 16 + hex_digit_value(s[3]),
{
    reveal_with_fuel(hex_value, 5);
    assert(s.drop_last().drop_last().drop_last().drop_last().len() == 0);
    assert(s.drop_last().drop_last().drop_last().last() == s[0]);
    assert(s.drop_last().drop_last().last() == s[1]);
    assert(s.drop_last().last() == s[2]);
}

/// Expanding a code substitutes it into the vendor template: the identifier
/// is the template's value with the code's value in its second 16-bit field.
/// It depends on the code alone, so two expansions of one code agree.
pub proof fn lemma_expand_substitutes(code: Seq<char>)
    requires
        is_short_code(code),
    ensures
        uuid_value(uuid_text(code)) == 0xb5f9_0000_aa8d_11e3_9046_0002_a5d5_c51b + hex_value(code)
            * 0x1_0000_0000_0000_0000_0000_0000,
{
    let t = uuid_text(code);
    let head = seq!['b', '5', 'f', '9'];
    let f1 = seq!['a', 'a', '8', 'd'];
    let f2 = seq!['1', '1', 'e', '3'];
    let f3 = seq!['9', '0', '4', '6'];
    let f4 = seq!['0', '0', '0', '2'];
    let f5 = seq!['a', '5', 'd', '5'];
    let f6 = seq!['c', '5', '1', 'b'];
    let digits = t.subrange(0, 8) + t.subrange(9, 13) + t.subrange(14, 18) + t.subrange(19, 23)
        + t.subrange(24, 36);
    assert(t.len() == 36);
    assert(t.subrange(0, 8) =~= head + code);
    assert(t.subrange(9, 13) =~= f1);
    assert(t.subrange(14, 18) =~= f2);
    assert(t.subrange(19, 23) =~= f3);
    assert(t.subrange(24, 36) =~= f4 + f5 + f6);
    assert(digits =~= head + code + f1 + f2 + f3 + f4 + f5 + f6);
    lemma_hex_value_four(head);
    lemma_hex_value_four(code);
    lemma_hex_value_four(f1);
    lemma_hex_value_four(f2);
    lemma_hex_value_four(f3);
    lemma_hex_value_four(f4);
    lemma_hex_value_four(f5);
    lemma_hex_value_four(f6);
    lemma_hex_value_append(head, code);
    lemma_hex_value_append(head + code, f1);
    lemma_hex_value_append(head + code + f1, f2);
    lemma_hex_value_append(head + code + f1 + f2, f3);
    lemma_hex_value_append(head + code + f1 + f2 + f3, f4);
    lemma_hex_value_append(head + code + f1 + f2 + f3 + f4, f5);
    lemma_hex_value_append(head + code + f1 + f2 + f3 + f4 + f5, f6);
    reveal_with_fuel(pow, 5);
    assert(pow(16, 4) == 65536);
    let hc = hex_value(code);
    assert(hex_value(head) == 0xb5f9);
    assert(hex_value(f1) == 0xaa8d);
    assert(hex_value(f2) == 0x11e3);
    assert(hex_value(f3) == 0x9046);
    assert(hex_value(f4) == 0x0002);
    assert(hex_value(f5) == 0xa5d5);
    assert(hex_value(f6) == 0xc51b);
    assert(hex_value(head + code) == 0xb5f9 * 65536 + hc);
    assert(hex_value(head + code + f1) == (0xb5f9 * 65536 + hc) * 65536 + 0xaa8d);
    assert(hex_value(digits) == ((((((0xb5f9 * 65536 + hc) * 65536 + 0xaa8d) * 65536 + 0x11e3)
        * 65536 + 0x9046) * 65536 + 0x0002) * 65536 + 0xa5d5) * 65536 + 0xc51b);
}

} // verus!
