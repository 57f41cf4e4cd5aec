//! The applied-state record, hex encoding and content hashes.

use vstd::prelude::*;
use vstd::string::*;

verus! {

/// Version written into, and required of, persisted state documents.
pub const STATE_VERSION: &'static str = "1.0";

/// What was applied to one browser.
pub struct BrowserState {
    /// Extension identifiers, in the order they were written.
    pub extensions: Vec<String>,
    /// Chrome only.
    pub disable_incognito: Option<bool>,
    /// Edge only.
    pub disable_inprivate: Option<bool>,
    /// Firefox only.
    pub disable_private_browsing: Option<bool>,
    /// Chrome and Edge only.
    pub disable_guest_mode: Option<bool>,
}

/// An empty browser state: no extension, no flag.
pub open spec fn browser_state_empty(s: BrowserState) -> bool {
    &&& s.extensions@.len() == 0
    &&& s.disable_incognito is None
    &&& s.disable_inprivate is None
    &&& s.disable_private_browsing is None
    &&& s.disable_guest_mode is None
}

impl BrowserState {
    /// A state with nothing applied.
    pub fn new() -> (r: Self)
        ensures
            browser_state_empty(r),
    {
        BrowserState {
            extensions: Vec::new(),
            disable_incognito: None,
            disable_inprivate: None,
            disable_private_browsing: None,
            disable_guest_mode: None,
        }
    }

    /// Whether nothing is applied.
    pub fn is_empty(&self) -> (r: bool)
        ensures
            r == browser_state_empty(*self),
    {
        self.extensions.len() == 0 && self.disable_incognito.is_none() && self.disable_inprivate.is_none()
            && self.disable_private_browsing.is_none() && self.disable_guest_mode.is_none()
    }
}

impl Default for BrowserState {
    fn default() -> (r: Self)
        ensures
            browser_state_empty(r),
    {
        BrowserState::new()
    }
}

/// What was applied, per browser; a browser is absent when nothing was.
pub struct AppliedPolicies {
    pub chrome: Option<BrowserState>,
    pub firefox: Option<BrowserState>,
    pub edge: Option<BrowserState>,
}

impl Default for AppliedPolicies {
    fn default() -> (r: Self)
        ensures
            r.chrome is None && r.firefox is None && r.edge is None,
    {
        AppliedPolicies { chrome: None, firefox: None, edge: None }
    }
}

/// The persisted record of the last successful local apply.
pub struct State {
    pub version: String,
    /// `sha256:` followed by the hex digest of the applied document.
    pub config_hash: String,
    /// Seconds since the Unix epoch.
    pub last_updated: i64,
    pub applied_policies: AppliedPolicies,
}

/// Makes the state recorded after an apply.
pub fn create_state(config_hash: String, applied_policies: AppliedPolicies, now: i64) -> (r: State)
    ensures
        r.version@ == STATE_VERSION@,
        r.config_hash == config_hash,
        r.last_updated == now,
        r.applied_policies == applied_policies,
{
    State { version: STATE_VERSION.to_owned(), config_hash, last_updated: now, applied_policies }
}

/// A loaded state document is used only when its version is the current one;
/// otherwise it counts as absent.
pub fn accept_loaded_state(state: State) -> (r: Option<State>)
    ensures
        r is Some <==> state.version@ == STATE_VERSION@,
        r is Some ==> r->0 == state,
{
    let current = STATE_VERSION.to_owned();
    if state.version == current {
        Some(state)
    } else {
        None
    }
}

/// Lowercase hexadecimal digit of a value below 16.
pub open spec fn hex_char(n: u8) -> char {
    if n < 10 {
        (('0' as u8) + n) as char
    } else {
        (('a' as u8) + (n - 10)) as char
    }
}

/// Two lowercase hex digits per byte, high nibble first.
pub open spec fn hex_of(bytes: Seq<u8>) -> Seq<char>
    decreases bytes.len(),
{
    if bytes.len() == 0 {
        seq![]
    } else {
        let b = bytes.last();
        hex_of(bytes.drop_last()) + seq![hex_char(b / 16), hex_char(b % 16)]
    }
}

/// The one-character string of a hex digit.
fn hex_digit(n: u8) -> (r: &'static str)
    requires
        n < 16,
    ensures
        r@ == seq![hex_char(n)],
{
    proof {
        reveal_strlit("0");
        reveal_strlit("1");
        reveal_strlit("2");
        reveal_strlit("3");
        reveal_strlit("4");
        reveal_strlit("5");
        reveal_strlit("6");
        reveal_strlit("7");
        reveal_strlit("8");
        reveal_strlit("9");
        reveal_strlit("a");
        reveal_strlit("b");
        reveal_strlit("c");
        reveal_strlit("d");
        reveal_strlit("e");
        reveal_strlit("f");
    }
    let r = match n {
        0 => "0",
        1 => "1",
        2 => "2",
        3 => "3",
        4 => "4",
        5 => "5",
        6 => "6",
        7 => "7",
        8 => "8",
        9 => "9",
        10 => "a",
        11 => "b",
        12 => "c",
        13 => "d",
        14 => "e",
        _ => "f",
    };
    assert(r@ =~= seq![hex_char(n)]);
    r
}

/// Lowercase hex encoding of bytes, two digits each.
pub fn encode(bytes: &[u8]) -> (r: String)
    ensures
        r@ == hex_of(bytes@),
{
    let mut out = String::new();
    let mut i: usize = 0;
    while i < bytes.len()
        invariant
            i <= bytes@.len(),
            out@ == hex_of(bytes@.subrange(0, i as int)),
        decreases bytes@.len() - i,
    {
        let b = bytes[i];
        let ghost prefix = bytes@.subrange(0, i + 1);
        assert(prefix.drop_last() =~= bytes@.subrange(0, i as int));
        out.append(hex_digit(b / 16));
        out.append(hex_digit(b % 16));
        assert(out@ =~= hex_of(prefix));
        i = i + 1;
    }
    assert(bytes@.subrange(0, bytes@.len() as int) =~= bytes@);
    out
}

/// The SHA-256 digest of some bytes.
pub uninterp spec fn sha256_of(bytes: Seq<u8>) -> Seq<u8>;

/// Relies on sha2's `Sha256::digest`: the 32-byte SHA-256 digest of the input,
/// which depends on the input alone.
#[verifier::external_body]
fn sha256_digest(bytes: &[u8]) -> (r: Vec<u8>)
    ensures
        r@ == sha256_of(bytes@),
        r@.len() == 32,
{
    <sha2::Sha256 as sha2::Digest>::digest(bytes).to_vec()
}

/// The text recorded for a digest: `sha256:` followed by its hex encoding.
pub open spec fn hash_text(digest: Seq<u8>) -> Seq<char> {
    "sha256:"@ + hex_of(digest)
}

/// Formats a digest as `sha256:<hex>`.
pub fn hash_from_digest(digest: &[u8]) -> (r: String)
    ensures
        r@ == hash_text(digest@),
{
    let mut s = "sha256:".to_owned();
    let hex = encode(digest);
    s.append(hex.as_str());
    s
}

/// The content hash of a document's text: `sha256:` and the hex SHA-256
/// digest of its UTF-8 bytes.
pub open spec fn content_hash(text: Seq<char>) -> Seq<char> {
    hash_text(sha256_of(vstd::utf8::encode_utf8(text)))
}

/// Computes the content hash of a policy document's text.
pub fn compute_config_hash(content: &str) -> (r: String)
    ensures
        r@ == content_hash(content@),
{
    let digest = sha256_digest(content.as_bytes());
    hash_from_digest(digest.as_slice())
}

/// Hex encoding doubles the length.
pub proof fn lemma_hex_len(bytes: Seq<u8>)
    ensures
        hex_of(bytes).len() == 2 * bytes.len(),
    decreases bytes.len(),
{
    if bytes.len() > 0 {
        lemma_hex_len(bytes.drop_last());
    }
}

/// Each hex digit names its nibble.
proof fn lemma_hex_char_injective(a: u8, b: u8)
    requires
        a < 16,
        b < 16,
        hex_char(a) == hex_char(b),
    ensures
        a == b,
{
}

/// Hex encoding is injective.
pub proof fn lemma_hex_injective(a: Seq<u8>, b: Seq<u8>)
    requires
        hex_of(a) == hex_of(b),
    ensures
        a == b,
    decreases a.len(),
{
    lemma_hex_len(a);
    lemma_hex_len(b);
    if a.len() > 0 {
        let ha = hex_of(a.drop_last());
        let hb = hex_of(b.drop_last());
        lemma_hex_len(a.drop_last());
        lemma_hex_len(b.drop_last());
        let n = ha.len() as int;
        assert(hex_of(a)[n] == hex_char(a.last() / 16));
        assert(hex_of(b)[n] == hex_char(b.last() / 16));
        assert(hex_of(a)[n + 1] == hex_char(a.last() % 16));
        assert(hex_of(b)[n + 1] == hex_char(b.last() % 16));
        lemma_hex_char_injective(a.last() / 16, b.last() / 16);
        lemma_hex_char_injective(a.last() % 16, b.last() % 16);
        assert(a.last() == b.last()) by (nonlinear_arith)
            requires
                a.last() / 16 == b.last() / 16,
                a.last() % 16 == b.last() % 16,
        ;
        assert(ha =~= hex_of(a).subrange(0, n));
        assert(hb =~= hex_of(b).subrange(0, n));
        lemma_hex_injective(a.drop_last(), b.drop_last());
        assert(a =~= a.drop_last().push(a.last()));
        assert(b =~= b.drop_last().push(b.last()));
    } else {
        assert(a =~= b);
    }
}

/// Content hashes are a function of the document text, and two texts get
/// the same hash exactly when the SHA-256 digests of their UTF-8 bytes agree.
pub proof fn lemma_config_hash_identifies_digest(t1: Seq<char>, t2: Seq<char>)
    ensures
        t1 == t2 ==> content_hash(t1) == content_hash(t2),
        content_hash(t1) == content_hash(t2) <==>
            sha256_of(vstd::utf8::encode_utf8(t1)) == sha256_of(vstd::utf8::encode_utf8(t2)),
{
    let d1 = sha256_of(vstd::utf8::encode_utf8(t1));
    let d2 = sha256_of(vstd::utf8::encode_utf8(t2));
    if content_hash(t1) == content_hash(t2) {
        let p = "sha256:"@;
        assert(hex_of(d1) =~= hash_text(d1).subrange(p.len() as int, hash_text(d1).len() as int));
        assert(hex_of(d2) =~= hash_text(d2).subrange(p.len() as int, hash_text(d2).len() as int));
        lemma_hex_injective(d1, d2);
    }
}

} // verus!
