//! Public keys and signing keypairs as plain bytes, with the codecs that the
//! key libraries provide.

use crate::decimal::decimal_text;
use solana_signer::Signer;
use vstd::prelude::*;

verus! {

/// A public key: 32 bytes, ordered as byte strings are.
#[derive(Clone, Copy, Debug, PartialEq, Eq, PartialOrd, Ord, Hash)]
pub struct Pubkey {
    bytes: [u8; 32],
}

impl View for Pubkey {
    type V = Seq<u8>;

    closed spec fn view(&self) -> Seq<u8> {
        self.bytes@
    }
}

/// Lexicographic order on byte strings of one length.
pub open spec fn bytes_less(a: Seq<u8>, b: Seq<u8>) -> bool {
    exists|i: int|
        0 <= i < a.len() && i < b.len() && a.take(i) == b.take(i) && a[i] < #[trigger] b[i]
}

impl Pubkey {
    pub fn new(bytes: [u8; 32]) -> (r: Pubkey)
        ensures
            r@ == bytes@,
    {
        Pubkey { bytes }
    }

    pub fn to_bytes(&self) -> (r: [u8; 32])
        ensures
            r@ == self@,
    {
        self.bytes
    }

    /// Every key has 32 bytes.
    pub proof fn lemma_len(&self)
        ensures
            self@.len() == 32,
    {
    }

    /// Whether two keys hold the same bytes.
    pub fn same(&self, other: &Pubkey) -> (r: bool)
        ensures
            r == (self@ == other@),
    {
        let mut i: usize = 0;
        while i < 32
            invariant
                i <= 32,
                self@.take(i as int) == other@.take(i as int),
            decreases 32 - i,
        {
            if self.bytes[i] != other.bytes[i] {
                assert(self@[i as int] != other@[i as int]);
                return false;
            }
            assert(self@.take(i + 1) =~= self@.take(i as int).push(self@[i as int]));
            assert(other@.take(i + 1) =~= other@.take(i as int).push(other@[i as int]));
            i = i + 1;
        }
        assert(self@.take(32) =~= self@);
        assert(other@.take(32) =~= other@);
        true
    }

    /// Whether this key comes strictly before the other.
    pub fn less(&self, other: &Pubkey) -> (r: bool)
        ensures
            r == bytes_less(self@, other@),
    {
        let mut i: usize = 0;
        while i < 32
            invariant
                i <= 32,
                self@.take(i as int) == other@.take(i as int),
            decreases 32 - i,
        {
            if self.bytes[i] != other.bytes[i] {
                let before: bool = self.bytes[i] < other.bytes[i];
                proof {
                    lemma_first_difference_decides(self@, other@, i as int);
                }
                return before;
            }
            assert(self@.take(i + 1) =~= self@.take(i as int).push(self@[i as int]));
            assert(other@.take(i + 1) =~= other@.take(i as int).push(other@[i as int]));
            i = i + 1;
        }
        proof {
            assert(self@.take(32) =~= self@);
            assert(other@.take(32) =~= other@);
            lemma_bytes_less_irreflexive(self@);
        }
        false
    }
}

/// Byte strings that agree on a prefix agree at every place in it.
proof fn lemma_prefix_agrees(a: Seq<u8>, b: Seq<u8>, n: int, j: int)
    requires
        0 <= j < n,
        n <= a.len(),
        n <= b.len(),
        a.take(n) == b.take(n),
    ensures
        a[j] == b[j],
{
    assert(a.take(n)[j] == a[j]);
    assert(b.take(n)[j] == b[j]);
}

/// Where two byte strings first differ, the bytes there decide the order.
pub proof fn lemma_first_difference_decides(a: Seq<u8>, b: Seq<u8>, i: int)
    requires
        0 <= i < a.len(),
        i < b.len(),
        a.take(i) == b.take(i),
        a[i] != b[i],
    ensures
        bytes_less(a, b) == (a[i] < b[i]),
        bytes_less(b, a) == (b[i] < a[i]),
{
    if bytes_less(a, b) {
        let j = choose|j: int|
            0 <= j < a.len() && j < b.len() && a.take(j) == b.take(j) && a[j] < #[trigger] b[j];
        if j < i {
            lemma_prefix_agrees(a, b, i, j);
        }
        if i < j {
            lemma_prefix_agrees(a, b, j, i);
        }
    }
    if bytes_less(b, a) {
        let j = choose|j: int|
            0 <= j < b.len() && j < a.len() && b.take(j) == a.take(j) && b[j] < #[trigger] a[j];
        if j < i {
            lemma_prefix_agrees(a, b, i, j);
        }
        if i < j {
            lemma_prefix_agrees(a, b, j, i);
        }
    }
    if a[i] < b[i] {
        assert(a.take(i) == b.take(i) && a[i] < b[i]);
    } else {
        assert(b.take(i) == a.take(i) && b[i] < a[i]);
    }
}

/// No byte string comes before itself.
pub proof fn lemma_bytes_less_irreflexive(a: Seq<u8>)
    ensures
        !bytes_less(a, a),
{
}

/// The order is transitive.
pub proof fn lemma_bytes_less_transitive(a: Seq<u8>, b: Seq<u8>, c: Seq<u8>)
    requires
        bytes_less(a, b),
        bytes_less(b, c),
    ensures
        bytes_less(a, c),
{
    let i = choose|i: int|
        0 <= i < a.len() && i < b.len() && a.take(i) == b.take(i) && a[i] < #[trigger] b[i];
    let j = choose|j: int|
        0 <= j < b.len() && j < c.len() && b.take(j) == c.take(j) && b[j] < #[trigger] c[j];
    let k = if i <= j {
        i
    } else {
        j
    };
    assert(a.take(k) =~= c.take(k)) by {
        assert forall|m: int| 0 <= m < k implies a[m] == c[m] by {
            lemma_prefix_agrees(a, b, i, m);
            lemma_prefix_agrees(b, c, j, m);
        }
    }
    if i < j {
        lemma_prefix_agrees(b, c, j, i);
    }
    if j < i {
        lemma_prefix_agrees(a, b, i, j);
    }
    assert(a.take(k) == c.take(k) && a[k] < c[k]);
}

/// Of two byte strings of one length, one comes first or they are equal.
pub proof fn lemma_bytes_less_total(a: Seq<u8>, b: Seq<u8>)
    requires
        a.len() == b.len(),
    ensures
        bytes_less(a, b) || bytes_less(b, a) || a == b,
{
    if a != b {
        assert(!(a =~= b));
        let d = choose|d: int| 0 <= d < a.len() && a[d] != b[d];
        lemma_first_difference_exists(a, b, d);
    }
}

proof fn lemma_first_difference_exists(a: Seq<u8>, b: Seq<u8>, d: int)
    requires
        a.len() == b.len(),
        0 <= d < a.len(),
        a[d] != b[d],
    ensures
        bytes_less(a, b) || bytes_less(b, a),
    decreases d,
{
    if a.take(d) == b.take(d) {
        lemma_first_difference_decides(a, b, d);
    } else {
        assert(!(a.take(d) =~= b.take(d)));
        let e = choose|e: int| 0 <= e < d && a.take(d)[e] != b.take(d)[e];
        assert(a.take(d)[e] == a[e]);
        assert(b.take(d)[e] == b[e]);
        lemma_first_difference_exists(a, b, e);
    }
}

/// The key that a base-58 text denotes, where it denotes one.
pub uninterp spec fn base58_pubkey(text: Seq<char>) -> Option<Seq<u8>>;

/// The base-58 text of the bytes of a key.
pub uninterp spec fn base58_text(key: Seq<u8>) -> Seq<char>;

/// The public half of the Ed25519 keypair with the given secret half.
pub uninterp spec fn ed25519_public(secret: Seq<u8>) -> Seq<u8>;

/// What the text of a keypair file holds: the secret half of a keypair, or
/// else the codec's account of what is wrong with the text.
pub uninterp spec fn keypair_file_secret(text: Seq<char>) -> Result<Seq<u8>, Seq<char>>;

/// Decodes a key with `solana_pubkey::Pubkey::from_str`. Trusted: the result
/// is the decoding of the text, a function of the text alone.
#[verifier::external_body]
pub(crate) fn decode_base58(text: &str) -> (r: Option<Pubkey>)
    ensures
        match r {
            Some(key) => base58_pubkey(text@) == Some(key@),
            None => base58_pubkey(text@) is None,
        },
{
    text.parse::<solana_pubkey::Pubkey>().ok().map(|key| Pubkey::new(key.to_bytes()))
}

/// Encodes a key with the `Display` of `solana_pubkey::Pubkey`. Trusted: the
/// result is the base-58 text of the key's bytes.
#[verifier::external_body]
pub(crate) fn encode_base58(key: &Pubkey) -> (r: String)
    ensures
        r@ == base58_text(key@),
{
    solana_pubkey::Pubkey::new_from_array(key.to_bytes()).to_string()
}

/// An Ed25519 signing keypair: the secret half and the public half that
/// belongs to it.
#[derive(Debug)]
pub struct Keypair {
    secret: [u8; 32],
    public: [u8; 32],
}

/// The list of numbers inside a keypair file: each byte in decimal, a comma
/// between two of them.
pub open spec fn byte_list_text(bytes: Seq<u8>) -> Seq<char>
    decreases bytes.len(),
{
    if bytes.len() == 0 {
        Seq::<char>::empty()
    } else if bytes.len() == 1 {
        decimal_text(bytes[0] as nat)
    } else {
        byte_list_text(bytes.drop_last()) + seq![','] + decimal_text(bytes.last() as nat)
    }
}

/// The text of a keypair file: the 64 bytes of the keypair as a bracketed
/// list of numbers.
pub open spec fn keypair_text(bytes: Seq<u8>) -> Seq<char> {
    seq!['['] + byte_list_text(bytes) + seq![']']
}

impl Keypair {
    #[verifier::type_invariant]
    spec fn halves_belong(self) -> bool {
        self.public@ == ed25519_public(self.secret@)
    }

    /// The 32 secret bytes.
    pub closed spec fn secret(&self) -> Seq<u8> {
        self.secret@
    }

    /// The 32 public bytes.
    pub closed spec fn public(&self) -> Seq<u8> {
        self.public@
    }

    /// The 64 bytes of the keypair: the secret half, then the public half.
    pub open spec fn bytes(&self) -> Seq<u8> {
        self.secret() + self.public()
    }

    fn from_halves(secret: [u8; 32], public: [u8; 32]) -> (r: Keypair)
        requires
            public@ == ed25519_public(secret@),
        ensures
            r.secret() == secret@,
            r.public() == public@,
    {
        Keypair { secret, public }
    }

    pub fn secret_bytes(&self) -> (r: [u8; 32])
        ensures
            r@ == self.secret(),
    {
        self.secret
    }

    /// The public key of the keypair.
    pub fn pubkey(&self) -> (r: Pubkey)
        ensures
            r@ == self.public(),
            self.public() == ed25519_public(self.secret()),
    {
        proof {
            use_type_invariant(self);
        }
        Pubkey::new(self.public)
    }
}

/// Calls `solana_keypair::keypair_from_seed`. Trusted: it fails exactly on a
/// seed shorter than 32 bytes, and else takes the first 32 bytes as the
/// secret half.
#[verifier::external_body]
pub(crate) fn keypair_of_seed(seed: &[u8]) -> (r: Option<Keypair>)
    ensures
        r is Some <==> seed@.len() >= 32,
        r matches Some(keypair) ==> keypair.secret() == seed@.take(32) && keypair.public()
            == ed25519_public(keypair.secret()),
{
    match solana_keypair::keypair_from_seed(seed) {
        Ok(found) => Some(Keypair::from_halves(*found.secret_bytes(), found.pubkey().to_bytes())),
        Err(_) => None,
    }
}

/// Calls `solana_keypair::read_keypair` on the text. Trusted: whether it
/// succeeds, with which keypair, and else with which words, depends on the
/// text alone.
#[verifier::external_body]
pub(crate) fn read_keypair_text(text: &str) -> (r: Result<Keypair, String>)
    ensures
        match r {
            Ok(keypair) => keypair_file_secret(text@) == Ok::<Seq<u8>, Seq<char>>(
                keypair.secret(),
            ) && keypair.public() == ed25519_public(keypair.secret()),
            Err(cause) => keypair_file_secret(text@) == Err::<Seq<u8>, Seq<char>>(cause@),
        },
{
    match solana_keypair::read_keypair(&mut text.as_bytes()) {
        Ok(found) => Ok(Keypair::from_halves(*found.secret_bytes(), found.pubkey().to_bytes())),
        Err(cause) => Err(cause.to_string()),
    }
}

/// Calls `solana_keypair::write_keypair` into a buffer. Trusted: the text is
/// an opening bracket, the 64 bytes in decimal with commas between them, and
/// a closing bracket.
#[verifier::external_body]
pub(crate) fn write_keypair_text(keypair: &Keypair) -> (r: String)
    ensures
        r@ == keypair_text(keypair.bytes()),
{
    let outside = solana_keypair::Keypair::new_from_array(keypair.secret_bytes());
    solana_keypair::write_keypair(&outside, &mut Vec::new()).unwrap_or_default()
}

} // verus!
