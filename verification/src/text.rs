use vstd::prelude::*;
use vstd::utf8::valid_utf8;
use crate::socket::addr::Ipv4Addr;

verus! {

/// The ASCII digits of `n` in base ten, most significant first, with no
/// leading zeros (`"0"` for zero).
pub open spec fn decimal(n: nat) -> Seq<u8>
    decreases n,
{
    if n < 10 {
        seq![(n + 48) as u8]
    } else {
        decimal(n / 10).push((n % 10 + 48) as u8)
    }
}

/// The number that a string of ASCII digits stands for in base ten, most
/// significant digit first (zero for the empty string).
pub open spec fn digits_value(s: Seq<u8>) -> int
    decreases s.len(),
{
    if s.len() == 0 {
        0
    } else {
        digits_value(s.drop_last()) * 10 + (s.last() - 48)
    }
}

/// `decimal(n)` is the base-ten numeral of `n`: a non-empty string of ASCII
/// digits (`'0'` to `'9'`) that reads back as `n`, whose last digit is
/// `n % 10`, and which starts with `'0'` only for zero itself.
pub proof fn lemma_decimal_is_numeral(n: nat)
    ensures
        decimal(n).len() >= 1,
        forall|i: int| 0 <= i < decimal(n).len() ==> 48 <= #[trigger] decimal(n)[i] <= 57,
        digits_value(decimal(n)) == n,
        decimal(n).last() == 48 + n % 10,
        decimal(n)[0] == 48 ==> n == 0,
    decreases n,
{
    if n >= 10 {
        lemma_decimal_is_numeral(n / 10);
        let t = decimal(n);
        assert(t.drop_last() =~= decimal(n / 10));
        assert(digits_value(t) == digits_value(decimal(n / 10)) * 10 + (n % 10));
        assert(t[0] == decimal(n / 10)[0]);
        assert((n / 10) * 10 + n % 10 == n) by (nonlinear_arith);
        assert(digits_value(t) == digits_value(t.drop_last()) * 10 + (t.last() - 48));
    } else {
        let t = decimal(n);
        assert(t.drop_last() =~= Seq::<u8>::empty());
        assert(digits_value(t.drop_last()) == 0);
        assert(digits_value(t) == digits_value(t.drop_last()) * 10 + (t.last() - 48));
    }
}

/// An address written the usual way, `a.b.c.d`.
pub open spec fn ip_text(ip: Ipv4Addr) -> Seq<u8> {
    decimal(ip.a as nat) + seq![46u8] + decimal(ip.b as nat) + seq![46u8] + decimal(ip.c as nat)
        + seq![46u8] + decimal(ip.d as nat)
}

/// An address and port written the usual way, `a.b.c.d:port`.
pub open spec fn endpoint_text(ip: Ipv4Addr, port: u16) -> Seq<u8> {
    ip_text(ip) + seq![58u8] + decimal(port as nat)
}

/// Appends the decimal digits of `n` to `out`.
pub fn push_decimal(out: &mut Vec<u8>, n: u16)
    ensures
        final(out)@ == old(out)@ + decimal(n as nat),
    decreases n,
{
    if n >= 10 {
        push_decimal(out, n / 10);
    }
    let digit: u8 = (n % 10) as u8;
    out.push(digit + 48);
    proof {
        assert(decimal(n as nat) == if n < 10 {
            seq![(n + 48) as u8]
        } else {
            decimal((n / 10) as nat).push((n % 10 + 48) as u8)
        });
    }
}

/// Appends `bytes` to `out`.
pub fn push_bytes(out: &mut Vec<u8>, bytes: &[u8])
    ensures
        final(out)@ == old(out)@ + bytes@,
{
    let mut i: usize = 0;
    let ghost start = out@;
    while i < bytes.len()
        invariant
            i <= bytes@.len(),
            out@ == start + bytes@.subrange(0, i as int),
        decreases bytes@.len() - i,
    {
        out.push(bytes[i]);
        i += 1;
        proof {
            assert(bytes@.subrange(0, i as int) =~= bytes@.subrange(0, i - 1).push(bytes@[i - 1]));
        }
    }
    assert(bytes@.subrange(0, i as int) =~= bytes@);
}

/// Appends `a.b.c.d:port` to `out`.
pub fn push_endpoint(out: &mut Vec<u8>, ip: Ipv4Addr, port: u16)
    ensures
        final(out)@ == old(out)@ + endpoint_text(ip, port),
{
    let ghost start = out@;
    push_decimal(out, ip.a as u16);
    out.push(46);
    push_decimal(out, ip.b as u16);
    out.push(46);
    push_decimal(out, ip.c as u16);
    out.push(46);
    push_decimal(out, ip.d as u16);
    out.push(58);
    push_decimal(out, port);
    assert(out@ =~= start + endpoint_text(ip, port));
}

/// The text `a.b.c.d:port` for an address and port.
pub fn format_endpoint(ip: Ipv4Addr, port: u16) -> (text: Vec<u8>)
    ensures
        text@ == endpoint_text(ip, port),
{
    let mut out: Vec<u8> = Vec::new();
    push_endpoint(&mut out, ip, port);
    assert(out@ =~= endpoint_text(ip, port));
    out
}

/// `"Server "`.
pub open spec fn server_prefix() -> Seq<u8> {
    seq![83u8, 101, 114, 118, 101, 114, 32]
}

/// `" - Received: "`.
pub open spec fn received_infix() -> Seq<u8> {
    seq![32u8, 45, 32, 82, 101, 99, 101, 105, 118, 101, 100, 58, 32]
}

/// The answer the server sends for a message it received:
/// `Server a.b.c.d:port - Received: <message>`, where the address and port
/// are the server's own.
pub open spec fn response_text(ip: Ipv4Addr, port: u16, message: Seq<u8>) -> Seq<u8> {
    server_prefix() + endpoint_text(ip, port) + received_infix() + message
}

/// The bytes of an ASCII text.
pub open spec fn ascii(text: Seq<char>) -> Seq<u8> {
    text.map_values(|c: char| c as u8)
}

/// The server's answer is the text `Server `, the server's `a.b.c.d:port`,
/// the text ` - Received: ` and the message itself, unchanged; the address
/// text is the four octets in decimal joined by `.`, then `:` and the port in
/// decimal.
pub proof fn lemma_response_layout(ip: Ipv4Addr, port: u16, message: Seq<u8>)
    ensures
        response_text(ip, port, message) == ascii("Server "@) + endpoint_text(ip, port) + ascii(
            " - Received: "@,
        ) + message,
        endpoint_text(ip, port) == decimal(ip.a as nat) + ascii("."@) + decimal(ip.b as nat)
            + ascii("."@) + decimal(ip.c as nat) + ascii("."@) + decimal(ip.d as nat) + ascii(
            ":"@,
        ) + decimal(port as nat),
{
    reveal_strlit("Server ");
    reveal_strlit(" - Received: ");
    reveal_strlit(".");
    reveal_strlit(":");
    assert(ascii("Server "@) =~= server_prefix());
    assert(ascii(" - Received: "@) =~= received_infix());
    assert(ascii("."@) =~= seq![46u8]);
    assert(ascii(":"@) =~= seq![58u8]);
}

/// The answer to `message` from the server at `ip` and `port`.
pub fn format_response(ip: Ipv4Addr, port: u16, message: &[u8]) -> (text: Vec<u8>)
    ensures
        text@ == response_text(ip, port, message@),
{
    let mut out: Vec<u8> = vec![83u8, 101, 114, 118, 101, 114, 32];
    let ghost start = out@;
    assert(start == server_prefix());
    push_endpoint(&mut out, ip, port);
    let infix: Vec<u8> = vec![32u8, 45, 32, 82, 101, 99, 101, 105, 118, 101, 100, 58, 32];
    assert(infix@ == received_infix());
    push_bytes(&mut out, infix.as_slice());
    push_bytes(&mut out, message);
    assert(out@ =~= response_text(ip, port, message@));
    out
}

/// Bytes that are all ASCII are well-formed UTF-8.
pub proof fn lemma_ascii_is_utf8(bytes: Seq<u8>)
    requires
        forall|i: int| 0 <= i < bytes.len() ==> bytes[i] < 128,
    ensures
        valid_utf8(bytes),
    decreases bytes.len(),
{
    if bytes.len() != 0 {
        let b = bytes[0];
        assert(b < 128 ==> b & 0x7f == b) by (bit_vector);
        let rest = vstd::utf8::pop_first_scalar(bytes);
        assert(rest =~= bytes.subrange(1, bytes.len() as int));
        lemma_ascii_is_utf8(rest);
    }
}

/// Whether `bytes` are well-formed UTF-8.
///
/// Calls `std::str::from_utf8`, which the standard library documents to
/// succeed exactly on well-formed UTF-8; the contract states that as vstd's
/// definition of well-formed UTF-8.
#[verifier::external_body]
pub(crate) fn is_valid_utf8(bytes: &[u8]) -> (valid: bool)
    ensures
        valid == valid_utf8(bytes@),
{
    std::str::from_utf8(bytes).is_ok()
}

} // verus!
