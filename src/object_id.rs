use vstd::prelude::*;

verus! {

/// Whether `c` is a hexadecimal digit (either case).
pub open spec fn is_hex_digit(c: char) -> bool {
    ('0' <= c && c <= '9') || ('a' <= c && c <= 'f') || ('A' <= c && c <= 'F')
}

/// The value of a hexadecimal digit.
pub open spec fn hex_value(c: char) -> int {
    if '0' <= c && c <= '9' {
        c as int - '0' as int
    } else if 'a' <= c && c <= 'f' {
        c as int - 'a' as int + 10
    } else {
        c as int - 'A' as int + 10
    }
}

/// The lowercase hexadecimal digit for `n` in `0..16`.
pub open spec fn hex_digit(n: int) -> char {
    if n == 0 { '0' } else if n == 1 { '1' } else if n == 2 { '2' } else if n == 3 { '3' }
    else if n == 4 { '4' } else if n == 5 { '5' } else if n == 6 { '6' } else if n == 7 { '7' }
    else if n == 8 { '8' } else if n == 9 { '9' } else if n == 10 { 'a' } else if n == 11 { 'b' }
    else if n == 12 { 'c' } else if n == 13 { 'd' } else if n == 14 { 'e' } else { 'f' }
}

/// Text that denotes a store key: exactly 24 hexadecimal digits.
pub open spec fn is_id_text(s: Seq<char>) -> bool {
    s.len() == 24 && forall|i: int| 0 <= i < 24 ==> #[trigger] is_hex_digit(s[i])
}

/// The twelve key bytes that identifier text denotes, two digits per byte.
pub open spec fn id_bytes_of(s: Seq<char>) -> Seq<u8> {
    Seq::new(12, |k: int| (hex_value(s[2 * k]) * 16 + hex_value(s[2 * k + 1])) as u8)
}

/// The canonical text of key bytes: two lowercase digits per byte.
pub open spec fn hex_text(b: Seq<u8>) -> Seq<char> {
    Seq::new(
        2 * b.len(),
        |i: int| if i % 2 == 0 { hex_digit(b[i / 2] as int / 16) } else { hex_digit(b[i / 2] as int % 16) },
    )
}

/// The store's native primary key: twelve bytes, exchanged as 24 hex digits.
#[derive(Clone, Copy, Debug, PartialEq, Eq)]
pub struct RecordId {
    pub bytes: [u8; 12],
}

impl RecordId {
    pub open spec fn text(self) -> Seq<char> {
        hex_text(self.bytes@)
    }

    /// Parses identifier text; `None` exactly when it is not 24 hex digits.
    pub fn parse(s: &str) -> (r: Option<RecordId>)
        ensures
            r.is_some() <==> is_id_text(s@),
            r matches Some(id) ==> id.bytes@ == id_bytes_of(s@),
    {
        match parse_object_id(s) {
            Some(bytes) => Some(RecordId { bytes }),
            None => None,
        }
    }

    /// The identifier's canonical text.
    pub fn to_text(&self) -> (r: String)
        ensures
            r@ == self.text(),
    {
        object_id_hex(self.bytes)
    }
}

proof fn lemma_hex_digit(n: int)
    requires
        0 <= n < 16,
    ensures
        is_hex_digit(hex_digit(n)),
        hex_value(hex_digit(n)) == n,
{
}

/// The canonical text of an identifier parses back to the same identifier.
pub proof fn lemma_text_parses_back(id: RecordId)
    ensures
        is_id_text(id.text()),
        id_bytes_of(id.text()) == id.bytes@,
{
    let t = id.text();
    assert forall|i: int| 0 <= i < 24 implies #[trigger] is_hex_digit(t[i]) by {
        lemma_hex_digit(id.bytes@[i / 2] as int / 16);
        lemma_hex_digit(id.bytes@[i / 2] as int % 16);
    }
    assert forall|k: int| 0 <= k < 12 implies #[trigger] id_bytes_of(t)[k] == id.bytes@[k] by {
        let b = id.bytes@[k] as int;
        lemma_hex_digit(b / 16);
        lemma_hex_digit(b % 16);
        assert(t[2 * k] == hex_digit(b / 16));
        assert(t[2 * k + 1] == hex_digit(b % 16));
    }
    assert(id_bytes_of(t) =~= id.bytes@);
}

/// Relies on bson's `ObjectId::parse_str`: it hex-decodes the text (either
/// case) and accepts it exactly when that yields twelve bytes.
#[verifier::external_body]
fn parse_object_id(s: &str) -> (r: Option<[u8; 12]>)
    ensures
        r.is_some() <==> is_id_text(s@),
        r matches Some(b) ==> b@ == id_bytes_of(s@),
{
    mongodb::bson::oid::ObjectId::parse_str(s).ok().map(|o| o.bytes())
}

/// Relies on bson's `ObjectId::to_hex`: two lowercase hex digits per byte.
#[verifier::external_body]
fn object_id_hex(b: [u8; 12]) -> (r: String)
    ensures
        r@ == hex_text(b@),
{
    mongodb::bson::oid::ObjectId::from_bytes(b).to_hex()
}

} // verus!
