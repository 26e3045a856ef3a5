//! The payload values exchanged with contracts once bytes have crossed the boundary.

use vstd::prelude::*;

verus! {

/// Failure of turning text into a payload value.
#[derive(Debug, Clone, Copy, PartialEq, Eq, Structural)]
pub enum PayloadError {
    /// The text is not valid base64.
    InvalidBase64,
    /// The number of bytes is not the one asked for.
    LengthMismatch,
}

/// The bytes that base64 text decodes to, or `None` when it is not valid base64.
pub uninterp spec fn base64_decoded(text: Seq<char>) -> Option<Seq<u8>>;

/// The base64 text of some bytes.
pub uninterp spec fn base64_encoded(bytes: Seq<u8>) -> Seq<char>;

/// Relies on base64::decode (standard alphabet, padded): the bytes that `text` stands for.
#[verifier::external_body]
fn decode_base64(text: &str) -> (r: Option<Vec<u8>>)
    ensures
        match r {
            Some(v) => base64_decoded(text@) == Some(v@),
            None => base64_decoded(text@) is None,
        },
{
    base64::decode(text).ok()
}

/// Relies on base64::encode (standard alphabet, padded): the text that stands for `bytes`.
#[verifier::external_body]
fn encode_base64(bytes: &[u8]) -> (r: String)
    ensures
        r@ == base64_encoded(bytes@),
{
    base64::encode(bytes)
}

/// Relies on String::push: `c` is appended.
#[verifier::external_body]
fn push_char(s: &mut String, c: char)
    ensures
        final(s)@ == old(s)@.push(c),
{
    s.push(c)
}

/// Relies on String::push_str: the characters of `t` are appended.
#[verifier::external_body]
fn push_str(s: &mut String, t: &str)
    ensures
        final(s)@ == old(s)@ + t@,
{
    s.push_str(t)
}

/// The hexadecimal digit for `n` (below 16), a letter in upper or lower case.
pub open spec fn hex_char(n: u8, upper: bool) -> char {
    if n < 10 {
        ((n + 48) as u8) as char
    } else if upper {
        ((n + 55) as u8) as char
    } else {
        ((n + 87) as u8) as char
    }
}

/// Two hexadecimal digits for each byte, most significant first.
pub open spec fn hex_text(bytes: Seq<u8>, upper: bool) -> Seq<char>
    decreases bytes.len(),
{
    if bytes.len() == 0 {
        Seq::empty()
    } else {
        hex_text(bytes.drop_last(), upper) + seq![
            hex_char(bytes.last() / 16, upper),
            hex_char(bytes.last() % 16, upper),
        ]
    }
}

/// The decimal digits of `n`, without leading zeros.
pub open spec fn decimal_text(n: nat) -> Seq<char>
    decreases n,
{
    if n < 10 {
        seq![hex_char(n as u8, false)]
    } else {
        decimal_text(n / 10) + seq![hex_char((n % 10) as u8, false)]
    }
}

fn hex_digit(n: u8, upper: bool) -> (c: char)
    requires
        n < 16,
    ensures
        c == hex_char(n, upper),
{
    if n < 10 {
        (n + 48) as char
    } else if upper {
        (n + 55) as char
    } else {
        (n + 87) as char
    }
}

/// Appends the hexadecimal digits of `bytes`.
fn push_hex(out: &mut String, bytes: &[u8], upper: bool)
    ensures
        final(out)@ == old(out)@ + hex_text(bytes@, upper),
{
    let ghost start = out@;
    let mut i: usize = 0;
    while i < bytes.len()
        invariant
            0 <= i <= bytes@.len(),
            out@ == start + hex_text(bytes@.subrange(0, i as int), upper),
        decreases bytes@.len() - i,
    {
        let b = bytes[i];
        push_char(out, hex_digit(b / 16, upper));
        push_char(out, hex_digit(b % 16, upper));
        proof {
            let next = bytes@.subrange(0, i + 1);
            assert(next.drop_last() =~= bytes@.subrange(0, i as int));
            assert(next.last() == b);
            assert(out@ =~= start + hex_text(next, upper));
        }
        i = i + 1;
    }
    assert(bytes@.subrange(0, i as int) =~= bytes@);
}

/// Appends the decimal digits of `n`.
fn push_decimal(out: &mut String, n: u128)
    ensures
        final(out)@ == old(out)@ + decimal_text(n as nat),
    decreases n,
{
    if n >= 10 {
        push_decimal(out, n / 10);
    }
    push_char(out, hex_digit((n % 10) as u8, false));
    assert(final(out)@ =~= old(out)@ + decimal_text(n as nat));
}

/// An amount of one denomination.
#[derive(Clone, Debug, PartialEq, Eq)]
pub struct Coin {
    pub denom: String,
    pub amount: u128,
}

impl Coin {
    /// The amount in decimal followed by the denomination, without a space (`"100uatom"`),
    /// as is common in the Cosmos SDK.
    pub fn to_string(&self) -> (r: String)
        ensures
            r@ == decimal_text(self.amount as nat) + self.denom@,
    {
        let mut r = String::new();
        push_decimal(&mut r, self.amount);
        push_str(&mut r, self.denom.as_str());
        assert(r@ =~= decimal_text(self.amount as nat) + self.denom@);
        r
    }
}

/// A byte string that is written as base64 text.
#[derive(Clone, Debug, PartialEq, Eq, Hash, PartialOrd, Ord)]
pub struct Binary(pub Vec<u8>);

impl Binary {
    /// Decodes (untrusted) base64 text into bytes; fails if the text is not valid base64.
    pub fn from_base64(encoded: &str) -> (r: Result<Binary, PayloadError>)
        ensures
            match r {
                Ok(b) => base64_decoded(encoded@) == Some(b.0@),
                Err(e) => base64_decoded(encoded@) is None && e == PayloadError::InvalidBase64,
            },
    {
        match decode_base64(encoded) {
            Some(bytes) => Ok(Binary(bytes)),
            None => Err(PayloadError::InvalidBase64),
        }
    }

    /// The base64 text of the bytes, with padding.
    pub fn to_base64(&self) -> (r: String)
        ensures
            r@ == base64_encoded(self.0@),
    {
        encode_base64(self.0.as_slice())
    }

    /// The bytes.
    pub fn as_slice(&self) -> (r: &[u8])
        ensures
            r@ == self.0@,
    {
        self.0.as_slice()
    }

    /// The number of bytes.
    pub fn len(&self) -> (r: usize)
        ensures
            r == self.0@.len(),
    {
        self.0.len()
    }

    /// `Binary(` and two lower-case hexadecimal digits per byte, then `)`.
    pub fn to_debug_string(&self) -> (r: String)
        ensures
            r@ == seq!['B', 'i', 'n', 'a', 'r', 'y', '('] + hex_text(self.0@, false) + seq![')'],
    {
        let mut r = String::new();
        proof {
            reveal_strlit("Binary(");
        }
        push_str(&mut r, "Binary(");
        push_hex(&mut r, self.0.as_slice(), false);
        push_char(&mut r, ')');
        assert(r@ =~= seq!['B', 'i', 'n', 'a', 'r', 'y', '('] + hex_text(self.0@, false) + seq![')']);
        r
    }

    /// Copies the bytes into an array of exactly `LENGTH` bytes; fails if the length differs.
    pub fn to_array<const LENGTH: usize>(&self) -> (r: Result<[u8; LENGTH], PayloadError>)
        ensures
            match r {
                Ok(a) => self.0@.len() == LENGTH && a@ == self.0@,
                Err(e) => self.0@.len() != LENGTH && e == PayloadError::LengthMismatch,
            },
    {
        if self.0.len() != LENGTH {
            return Err(PayloadError::LengthMismatch);
        }
        let mut out: [u8; LENGTH] = [0u8; LENGTH];
        let mut i: usize = 0;
        while i < LENGTH
            invariant
                self.0@.len() == LENGTH,
                0 <= i <= LENGTH,
                out@.len() == LENGTH,
                forall|j: int| 0 <= j < i ==> out@[j] == self.0@[j],
            decreases LENGTH - i,
        {
            out[i] = self.0[i];
            i = i + 1;
        }
        assert(out@ =~= self.0@);
        Ok(out)
    }
}

impl From<Vec<u8>> for Binary {
    fn from(vec: Vec<u8>) -> (r: Self) {
        Binary(vec)
    }
}

impl vstd::std_specs::convert::FromSpecImpl<Vec<u8>> for Binary {
    open spec fn obeys_from_spec() -> bool {
        true
    }

    open spec fn from_spec(v: Vec<u8>) -> Binary {
        Binary(v)
    }
}

impl From<Binary> for Vec<u8> {
    fn from(original: Binary) -> (r: Vec<u8>) {
        original.0
    }
}

impl vstd::std_specs::convert::FromSpecImpl<Binary> for Vec<u8> {
    open spec fn obeys_from_spec() -> bool {
        true
    }

    open spec fn from_spec(v: Binary) -> Vec<u8> {
        v.0
    }
}

/// A human readable address, taken to be valid: it is only made from text that was
/// checked before, never from untrusted input directly.
#[derive(Clone, Debug, PartialEq, Eq, PartialOrd, Ord, Hash)]
pub struct Addr(String);

impl View for Addr {
    type V = Seq<char>;

    closed spec fn view(&self) -> Seq<char> {
        self.0@
    }
}

impl Addr {
    /// An address from `input` without any check; the caller vouches for it.
    pub fn unchecked(input: &str) -> (r: Addr)
        ensures
            r@ == input@,
    {
        Addr(input.to_owned())
    }

    /// The address as text.
    pub fn as_str(&self) -> (r: &str)
        ensures
            r@ == self@,
    {
        self.0.as_str()
    }

    /// The UTF-8 bytes of the address.
    pub fn as_bytes(&self) -> (r: &[u8])
        ensures
            r@ == vstd::utf8::encode_utf8(self@),
    {
        self.0.as_str().as_bytes()
    }

    /// The address as an owned `String`.
    pub fn into_string(self) -> (r: String)
        ensures
            r@ == self@,
    {
        self.0
    }
}

/// The canonical (binary) form of an address.
#[derive(Clone, Debug, PartialEq, Eq, Hash)]
pub struct CanonicalAddr(pub Binary);

impl CanonicalAddr {
    /// The bytes of the address.
    pub fn as_slice(&self) -> (r: &[u8])
        ensures
            r@ == self.0.0@,
    {
        self.0.as_slice()
    }

    /// Two upper-case hexadecimal digits per byte.
    pub fn to_string(&self) -> (r: String)
        ensures
            r@ == hex_text(self.0.0@, true),
    {
        let mut r = String::new();
        push_hex(&mut r, self.0.as_slice(), true);
        assert(r@ =~= hex_text(self.0.0@, true));
        r
    }
}

impl From<Vec<u8>> for CanonicalAddr {
    fn from(source: Vec<u8>) -> (r: Self) {
        CanonicalAddr(Binary(source))
    }
}

impl vstd::std_specs::convert::FromSpecImpl<Vec<u8>> for CanonicalAddr {
    open spec fn obeys_from_spec() -> bool {
        true
    }

    open spec fn from_spec(v: Vec<u8>) -> CanonicalAddr {
        CanonicalAddr(Binary(v))
    }
}

impl From<CanonicalAddr> for Vec<u8> {
    fn from(source: CanonicalAddr) -> (r: Vec<u8>) {
        source.0.0
    }
}

impl vstd::std_specs::convert::FromSpecImpl<CanonicalAddr> for Vec<u8> {
    open spec fn obeys_from_spec() -> bool {
        true
    }

    open spec fn from_spec(v: CanonicalAddr) -> Vec<u8> {
        v.0.0
    }
}

/// The environment a contract call runs in.
#[derive(Clone, Debug, PartialEq, Eq)]
pub struct Env {
    pub block: BlockInfo,
    /// The transaction this call runs in; unset when it does not run in one.
    pub transaction: Option<TransactionInfo>,
    pub contract: ContractInfo,
}

/// Where the transaction stands in its block.
#[derive(Clone, Copy, Debug, PartialEq, Eq, Structural)]
pub struct TransactionInfo {
    /// The position of this transaction in the block; the first has index 0.
    pub index: u32,
}

/// The block a call runs in.
#[derive(Clone, Debug, PartialEq, Eq)]
pub struct BlockInfo {
    /// The number of blocks before this one.
    pub height: u64,
    /// The time the block was made, in seconds since the UNIX epoch.
    pub time: u64,
    pub chain_id: String,
}

/// Who sent a call, and the funds sent with it.
#[derive(Clone, Debug, PartialEq, Eq)]
pub struct MessageInfo {
    pub sender: Addr,
    pub funds: Vec<Coin>,
}

/// The contract a call runs in.
#[derive(Clone, Debug, PartialEq, Eq)]
pub struct ContractInfo {
    pub address: Addr,
}

} // verus!
