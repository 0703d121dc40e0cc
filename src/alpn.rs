//! Application protocol negotiation: the tokens a server advertises and the
//! classification of a finished handshake by the token it settled on.
use vstd::prelude::*;

verus! {

/// What a connection can carry, decided once from its negotiated token.
#[derive(Debug, Clone, Copy, PartialEq, Eq, Structural)]
pub enum ProtocolClass {
    WebTransportCapable,
    LegacyQuic,
}

/// The HTTP/3 drafts that can carry WebTransport, in order of preference,
/// as ASCII bytes:
/// `h3`, `h3-32`, `h3-31`, `h3-30`, `h3-29`.
pub open spec fn web_transport_tokens() -> Seq<Seq<u8>> {
    seq![
        seq![0x68u8, 0x33u8],
        seq![0x68u8, 0x33u8, 0x2du8, 0x33u8, 0x32u8],
        seq![0x68u8, 0x33u8, 0x2du8, 0x33u8, 0x31u8],
        seq![0x68u8, 0x33u8, 0x2du8, 0x33u8, 0x30u8],
        seq![0x68u8, 0x33u8, 0x2du8, 0x32u8, 0x39u8],
    ]
}

/// The token of plain QUIC without HTTP/3, as ASCII bytes: `hq-29`.
pub open spec fn legacy_token() -> Seq<u8> {
    seq![0x68u8, 0x71u8, 0x2du8, 0x32u8, 0x39u8]
}

/// Every token the server offers: the WebTransport ones, then the legacy one.
pub open spec fn advertised_tokens() -> Seq<Seq<u8>> {
    web_transport_tokens().push(legacy_token())
}

/// The class of a connection whose handshake settled on `alpn` (`None` when
/// no token, or no handshake data, is known).
pub open spec fn class_of(alpn: Option<Seq<u8>>) -> ProtocolClass {
    match alpn {
        Some(a) => if web_transport_tokens().contains(a) {
            ProtocolClass::WebTransportCapable
        } else {
            ProtocolClass::LegacyQuic
        },
        None => ProtocolClass::LegacyQuic,
    }
}

/// The byte strings held by a sequence of vectors.
pub open spec fn byte_strings(v: Seq<Vec<u8>>) -> Seq<Seq<u8>> {
    v.map_values(|x: Vec<u8>| x@)
}

/// The bytes of an optional token.
pub open spec fn opt_bytes_view(alpn: Option<&[u8]>) -> Option<Seq<u8>> {
    match alpn {
        Some(a) => Some(a@),
        None => None,
    }
}

/// Every WebTransport-capable token classifies as such; `hq-29`, and a
/// connection with no negotiated token, classify as legacy QUIC.
pub proof fn lemma_classification(a: Seq<u8>)
    ensures
        web_transport_tokens().contains(a) ==> class_of(Some(a)) == ProtocolClass::WebTransportCapable,
        !web_transport_tokens().contains(a) ==> class_of(Some(a)) == ProtocolClass::LegacyQuic,
        class_of(Some(legacy_token())) == ProtocolClass::LegacyQuic,
        class_of(None) == ProtocolClass::LegacyQuic,
{
    let t = web_transport_tokens();
    let l = legacy_token();
    assert forall|i: int| 0 <= i < t.len() implies t[i] != l by {
        assert(t[i][1] != l[1]);
    }
}

/// The WebTransport-capable tokens, most preferred first.
pub fn web_transport_alpn() -> (r: Vec<Vec<u8>>)
    ensures
        byte_strings(r@) == web_transport_tokens(),
{
    let t0 = vec![0x68u8, 0x33u8];
    let t1 = vec![0x68u8, 0x33u8, 0x2du8, 0x33u8, 0x32u8];
    let t2 = vec![0x68u8, 0x33u8, 0x2du8, 0x33u8, 0x31u8];
    let t3 = vec![0x68u8, 0x33u8, 0x2du8, 0x33u8, 0x30u8];
    let t4 = vec![0x68u8, 0x33u8, 0x2du8, 0x32u8, 0x39u8];
    let ghost tokens = web_transport_tokens();
    assert(t0@ =~= tokens[0]);
    assert(t1@ =~= tokens[1]);
    assert(t2@ =~= tokens[2]);
    assert(t3@ =~= tokens[3]);
    assert(t4@ =~= tokens[4]);
    let mut r: Vec<Vec<u8>> = Vec::new();
    r.push(t0);
    r.push(t1);
    r.push(t2);
    r.push(t3);
    r.push(t4);
    assert(byte_strings(r@) =~= tokens);
    r
}

/// The legacy QUIC token.
pub fn quic_alpn() -> (r: Vec<u8>)
    ensures
        r@ == legacy_token(),
{
    let r = vec![0x68u8, 0x71u8, 0x2du8, 0x32u8, 0x39u8];
    assert(r@ =~= legacy_token());
    r
}

/// The list of tokens to put in the server's TLS configuration.
pub fn server_alpn_protocols() -> (r: Vec<Vec<u8>>)
    ensures
        byte_strings(r@) == advertised_tokens(),
{
    let mut r = web_transport_alpn();
    let q = quic_alpn();
    r.push(q);
    assert(byte_strings(r@) =~= advertised_tokens());
    r
}

/// Whether two byte strings are equal.
pub fn bytes_equal(a: &[u8], b: &[u8]) -> (r: bool)
    ensures
        r == (a@ == b@),
{
    if a.len() != b.len() {
        return false;
    }
    let mut i: usize = 0;
    while i < a.len()
        invariant
            a@.len() == b@.len(),
            i <= a@.len(),
            forall|j: int| 0 <= j < i ==> a@[j] == b@[j],
        decreases a@.len() - i,
    {
        if a[i] != b[i] {
            return false;
        }
        i = i + 1;
    }
    assert(a@ =~= b@);
    true
}

/// Classifies a connection by the token its handshake negotiated.
pub fn classify(alpn: Option<&[u8]>) -> (r: ProtocolClass)
    ensures
        r == class_of(opt_bytes_view(alpn)),
{
    match alpn {
        None => ProtocolClass::LegacyQuic,
        Some(a) => {
            let tokens = web_transport_alpn();
            let mut i: usize = 0;
            while i < tokens.len()
                invariant
                    alpn == Some(a),
                    byte_strings(tokens@) == web_transport_tokens(),
                    i <= tokens.len(),
                    forall|j: int| 0 <= j < i ==> web_transport_tokens()[j] != a@,
                decreases tokens.len() - i,
            {
                assert(tokens[i as int]@ == web_transport_tokens()[i as int]);
                if bytes_equal(a, tokens[i].as_slice()) {
                    assert(web_transport_tokens()[i as int] == a@);
                    assert(web_transport_tokens().contains(a@));
                    return ProtocolClass::WebTransportCapable;
                }
                i = i + 1;
            }
            assert(!web_transport_tokens().contains(a@));
            ProtocolClass::LegacyQuic
        },
    }
}

/// Whether the token is one of the WebTransport-capable ones.
pub fn is_web_transport_alpn(alpn: &[u8]) -> (r: bool)
    ensures
        r == web_transport_tokens().contains(alpn@),
{
    classify(Some(alpn)) == ProtocolClass::WebTransportCapable
}

/// An established QUIC connection of quinn, carried through opaquely.
#[verifier::external_type_specification]
#[verifier::external_body]
pub struct ExQuinnConnection(quinn::Connection);

/// Relies on quinn's `Connection::handshake_data`: the negotiated token is
/// the `protocol` field of the rustls handshake data, when there is any.
#[verifier::external_body]
fn negotiated_alpn(conn: &quinn::Connection) -> (r: Option<Vec<u8>>) {
    conn.handshake_data()
        .and_then(|d| d.downcast::<quinn::crypto::rustls::HandshakeData>().ok())
        .and_then(|d| d.protocol)
}

/// The bytes of an optional owned token.
pub open spec fn opt_vec_view(alpn: Option<Vec<u8>>) -> Option<Seq<u8>> {
    match alpn {
        Some(a) => Some(a@),
        None => None,
    }
}

/// Whether a handshake that negotiated `alpn` (`None`: no token, or no
/// handshake data) can carry WebTransport.
pub fn is_web_transport_negotiated(alpn: Option<Vec<u8>>) -> (r: bool)
    ensures
        r == (class_of(opt_vec_view(alpn)) == ProtocolClass::WebTransportCapable),
        alpn is None ==> !r,
{
    match alpn {
        Some(a) => is_web_transport_alpn(a.as_slice()),
        None => false,
    }
}

/// Whether an established connection negotiated an HTTP/3 token that can
/// carry WebTransport. What the handshake negotiated is read through quinn;
/// the decision on it is `is_web_transport_negotiated`, whose contract is
/// exact.
pub fn is_http3(conn: &quinn::Connection) -> (r: bool) {
    is_web_transport_negotiated(negotiated_alpn(conn))
}

} // verus!
