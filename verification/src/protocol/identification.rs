//! The handshake descriptor: optional client identifier, optional hostname,
//! and the feature-negotiation flag (default true). It serializes to a JSON
//! object holding only the optional fields that are set, plus
//! `feature_negotiation` always, with the keys in lexicographic order.

use vstd::prelude::*;

verus! {

/// The handshake descriptor sent in the IDENTIFY body, exactly once per
/// connection, immediately after the magic preamble.
#[derive(Clone, Debug)]
pub struct Identification {
    /// An identifier used to disambiguate this client.
    pub client_id: Option<String>,
    /// The hostname where the client is deployed.
    pub hostname: Option<String>,
    /// Whether the client supports feature negotiation. If the server is
    /// capable, it sends back a JSON payload of supported features.
    pub feature_negotiation: bool,
}

/// The JSON string literal (quoted and escaped) for the given characters,
/// as `serde_json` writes it.
pub uninterp spec fn json_string_bytes(s: Seq<char>) -> Seq<u8>;

/// Relies on `serde_json::to_vec` applied to a string slice: it writes the
/// JSON string literal for exactly those characters, a function of the
/// characters alone. Serializing a string slice cannot fail, so the
/// `unwrap` cannot panic.
#[verifier::external_body]
fn json_quote(s: &str) -> (r: Vec<u8>)
    ensures
        r@ == json_string_bytes(s@),
{
    serde_json::to_vec(s).unwrap()
}

/// The JSON key `"client_id":`.
pub open spec fn key_client_id() -> Seq<u8> {
    seq![
        '"' as u8,
        'c' as u8,
        'l' as u8,
        'i' as u8,
        'e' as u8,
        'n' as u8,
        't' as u8,
        '_' as u8,
        'i' as u8,
        'd' as u8,
        '"' as u8,
        ':' as u8,
    ]
}

/// The JSON key `"hostname":`.
pub open spec fn key_hostname() -> Seq<u8> {
    seq![
        '"' as u8,
        'h' as u8,
        'o' as u8,
        's' as u8,
        't' as u8,
        'n' as u8,
        'a' as u8,
        'm' as u8,
        'e' as u8,
        '"' as u8,
        ':' as u8,
    ]
}

/// The JSON key `"feature_negotiation":`.
pub open spec fn key_feature_negotiation() -> Seq<u8> {
    seq![
        '"' as u8,
        'f' as u8,
        'e' as u8,
        'a' as u8,
        't' as u8,
        'u' as u8,
        'r' as u8,
        'e' as u8,
        '_' as u8,
        'n' as u8,
        'e' as u8,
        'g' as u8,
        'o' as u8,
        't' as u8,
        'i' as u8,
        'a' as u8,
        't' as u8,
        'i' as u8,
        'o' as u8,
        'n' as u8,
        '"' as u8,
        ':' as u8,
    ]
}

/// The JSON literal `true` or `false`.
pub open spec fn json_bool_bytes(b: bool) -> Seq<u8> {
    if b {
        seq!['t' as u8, 'r' as u8, 'u' as u8, 'e' as u8]
    } else {
        seq!['f' as u8, 'a' as u8, 'l' as u8, 's' as u8, 'e' as u8]
    }
}

/// The serialized descriptor: a JSON object holding `client_id` and
/// `hostname` only when set, and `feature_negotiation` always, keys in
/// lexicographic order.
pub open spec fn ident_json(i: Identification) -> Seq<u8> {
    seq!['{' as u8] + (match i.client_id {
        Some(c) => key_client_id() + json_string_bytes(c@) + seq![',' as u8],
        None => Seq::<u8>::empty(),
    }) + key_feature_negotiation() + json_bool_bytes(i.feature_negotiation) + (match i.hostname {
        Some(h) => seq![',' as u8] + key_hostname() + json_string_bytes(h@),
        None => Seq::<u8>::empty(),
    }) + seq!['}' as u8]
}

impl Identification {
    /// The default descriptor: no optional fields, feature negotiation on.
    pub fn new() -> (r: Identification)
        ensures
            r.client_id is None,
            r.hostname is None,
            r.feature_negotiation == true,
    {
        Identification { client_id: None, hostname: None, feature_negotiation: true }
    }

    /// A builder starting from the default descriptor.
    pub fn builder() -> (r: IdentificationBuilder)
        ensures
            r.ident().client_id is None,
            r.ident().hostname is None,
            r.ident().feature_negotiation == true,
    {
        IdentificationBuilder { i: Identification::new() }
    }

    /// Serializes the descriptor as its JSON object.
    pub fn json_bytes(&self) -> (r: Vec<u8>)
        ensures
            r@ == ident_json(*self),
    {
        let mut r: Vec<u8> = Vec::new();
        r.push('{' as u8);
        if let Some(c) = &self.client_id {
            let key = key_client_id_vec();
            crate::protocol::wire::push_slice(&mut r, key.as_slice());
            let q = json_quote(c.as_str());
            crate::protocol::wire::push_slice(&mut r, q.as_slice());
            r.push(',' as u8);
        }
        let key = key_feature_negotiation_vec();
        crate::protocol::wire::push_slice(&mut r, key.as_slice());
        let flag = json_bool_vec(self.feature_negotiation);
        crate::protocol::wire::push_slice(&mut r, flag.as_slice());
        if let Some(h) = &self.hostname {
            r.push(',' as u8);
            let key = key_hostname_vec();
            crate::protocol::wire::push_slice(&mut r, key.as_slice());
            let q = json_quote(h.as_str());
            crate::protocol::wire::push_slice(&mut r, q.as_slice());
        }
        r.push('}' as u8);
        proof {
            assert(r@ =~= ident_json(*self));
        }
        r
    }
}

/// The key `"client_id":` as a vector.
fn key_client_id_vec() -> (r: Vec<u8>)
    ensures
        r@ == key_client_id(),
{
    let mut r: Vec<u8> = Vec::new();
    r.push('"' as u8);
    r.push('c' as u8);
    r.push('l' as u8);
    r.push('i' as u8);
    r.push('e' as u8);
    r.push('n' as u8);
    r.push('t' as u8);
    r.push('_' as u8);
    r.push('i' as u8);
    r.push('d' as u8);
    r.push('"' as u8);
    r.push(':' as u8);
    proof {
        assert(r@ =~= key_client_id());
    }
    r
}

/// The key `"hostname":` as a vector.
fn key_hostname_vec() -> (r: Vec<u8>)
    ensures
        r@ == key_hostname(),
{
    let mut r: Vec<u8> = Vec::new();
    r.push('"' as u8);
    r.push('h' as u8);
    r.push('o' as u8);
    r.push('s' as u8);
    r.push('t' as u8);
    r.push('n' as u8);
    r.push('a' as u8);
    r.push('m' as u8);
    r.push('e' as u8);
    r.push('"' as u8);
    r.push(':' as u8);
    proof {
        assert(r@ =~= key_hostname());
    }
    r
}

/// The key `"feature_negotiation":` as a vector.
fn key_feature_negotiation_vec() -> (r: Vec<u8>)
    ensures
        r@ == key_feature_negotiation(),
{
    let mut r: Vec<u8> = Vec::new();
    r.push('"' as u8);
    r.push('f' as u8);
    r.push('e' as u8);
    r.push('a' as u8);
    r.push('t' as u8);
    r.push('u' as u8);
    r.push('r' as u8);
    r.push('e' as u8);
    r.push('_' as u8);
    r.push('n' as u8);
    r.push('e' as u8);
    r.push('g' as u8);
    r.push('o' as u8);
    r.push('t' as u8);
    r.push('i' as u8);
    r.push('a' as u8);
    r.push('t' as u8);
    r.push('i' as u8);
    r.push('o' as u8);
    r.push('n' as u8);
    r.push('"' as u8);
    r.push(':' as u8);
    proof {
        assert(r@ =~= key_feature_negotiation());
    }
    r
}

/// The literal `true` or `false` as a vector.
fn json_bool_vec(b: bool) -> (r: Vec<u8>)
    ensures
        r@ == json_bool_bytes(b),
{
    let mut r: Vec<u8> = Vec::new();
    if b {
        r.push('t' as u8);
        r.push('r' as u8);
        r.push('u' as u8);
        r.push('e' as u8);
    } else {
        r.push('f' as u8);
        r.push('a' as u8);
        r.push('l' as u8);
        r.push('s' as u8);
        r.push('e' as u8);
    }
    proof {
        assert(r@ =~= json_bool_bytes(b));
    }
    r
}

/// Builds a descriptor field by field.
pub struct IdentificationBuilder {
    i: Identification,
}

impl IdentificationBuilder {
    /// The descriptor built so far.
    pub closed spec fn ident(&self) -> Identification {
        self.i
    }

    /// Sets the client identifier.
    pub fn client_id(self, client_id: &str) -> (r: IdentificationBuilder)
        ensures
            r.ident().client_id matches Some(c) && c@ == client_id@,
            r.ident().hostname == self.ident().hostname,
            r.ident().feature_negotiation == self.ident().feature_negotiation,
    {
        let mut i = self.i;
        i.client_id = Some(client_id.to_owned());
        IdentificationBuilder { i }
    }

    /// Sets the hostname.
    pub fn hostname(self, hostname: &str) -> (r: IdentificationBuilder)
        ensures
            r.ident().hostname matches Some(h) && h@ == hostname@,
            r.ident().client_id == self.ident().client_id,
            r.ident().feature_negotiation == self.ident().feature_negotiation,
    {
        let mut i = self.i;
        i.hostname = Some(hostname.to_owned());
        IdentificationBuilder { i }
    }

    /// The finished descriptor.
    pub fn build(self) -> (r: Identification)
        ensures
            r == self.ident(),
    {
        self.i
    }
}

} // verus!
