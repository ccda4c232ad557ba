//! The identifier interner.
//!
//! Names crossing the boundary are canonicalized into [`Ident`] tokens by
//! the host's process-wide interning cache: equal byte content always yields
//! the same token, so every name-keyed lookup in the protocol compares
//! tokens instead of re-hashing byte strings. A module never constructs a
//! token directly; it only receives them from [`Interner::intern`].

use vstd::prelude::*;

verus! {

/// True when no two entries of the cache hold the same byte content.
pub open spec fn distinct_entries(t: Seq<Seq<u8>>) -> bool {
    forall|i: int, j: int| 0 <= i < j < t.len() ==> t[i] != t[j]
}

/// The token that interning `b` into the cache `t` yields: the index of the
/// entry with content `b`, or the index one past the end when `b` is new.
pub open spec fn intern_tok(t: Seq<Seq<u8>>, b: Seq<u8>) -> int {
    if exists|i: int| 0 <= i < t.len() && t[i] == b {
        choose|i: int| 0 <= i < t.len() && t[i] == b
    } else {
        t.len() as int
    }
}

/// The cache after interning `b`: unchanged when `b` is already present,
/// extended by one entry otherwise.
pub open spec fn intern_table(t: Seq<Seq<u8>>, b: Seq<u8>) -> Seq<Seq<u8>> {
    if exists|i: int| 0 <= i < t.len() && t[i] == b {
        t
    } else {
        t.push(b)
    }
}

/// The host's process-wide interning cache: the canonical byte content of
/// every name handed out so far, one entry per distinct name.
#[derive(Debug)]
pub struct Interner {
    pub table: Vec<Vec<u8>>,
}

impl View for Interner {
    type V = Seq<Seq<u8>>;

    open spec fn view(&self) -> Seq<Seq<u8>> {
        Seq::new(self.table@.len(), |i: int| self.table@[i]@)
    }
}

/// An interned identifier: a token that is compared by identity, plus the
/// canonical byte content it stands for.
#[derive(Debug, PartialEq, Eq)]
pub struct Ident {
    /// The identity of the name: the index of its entry in the cache.
    pub tok: usize,
    /// The byte content the token canonicalizes.
    pub bytes: Vec<u8>,
}

/// True when `id` is a token that the cache `t` has handed out: its token
/// names the cache entry carrying exactly its bytes.
pub open spec fn ident_wf(id: Ident, t: Seq<Seq<u8>>) -> bool {
    &&& id.tok < t.len()
    &&& t[id.tok as int] == id.bytes@
}

/// Compares two byte strings for equal content.
fn bytes_equal(a: &[u8], b: &[u8]) -> (r: bool)
    ensures
        r <==> a@ == b@,
{
    if a.len() != b.len() {
        proof {
            assert(a@.len() != b@.len());
        }
        return false;
    }
    let n = a.len();
    let mut i: usize = 0;
    while i < n
        invariant
            n == a@.len() == b@.len(),
            0 <= i <= n,
            forall|k: int| 0 <= k < i ==> a@[k] == b@[k],
        decreases n - i,
    {
        if a[i] != b[i] {
            return false;
        }
        i += 1;
    }
    proof {
        assert(a@ =~= b@);
    }
    true
}

/// Copies a byte string.
pub(crate) fn clone_bytes(v: &Vec<u8>) -> (r: Vec<u8>)
    ensures
        r@ == v@,
{
    let mut r: Vec<u8> = Vec::new();
    let n = v.len();
    let mut i: usize = 0;
    while i < n
        invariant
            n == v@.len(),
            0 <= i <= n,
            r@ == v@.subrange(0, i as int),
        decreases n - i,
    {
        r.push(v[i]);
        proof {
            assert(r@ =~= v@.subrange(0, i + 1));
        }
        i += 1;
    }
    proof {
        assert(v@.subrange(0, n as int) =~= v@);
    }
    r
}

impl Interner {
    /// True when the cache holds at most one entry per byte content, so a
    /// token is the identity of its name.
    pub open spec fn wf(&self) -> bool {
        distinct_entries(self@)
    }

    /// An empty interning cache.
    pub fn new() -> (r: Interner)
        ensures
            r.wf(),
            r@.len() == 0,
    {
        let r = Interner { table: Vec::new() };
        proof {
            assert(r@ =~= Seq::<Seq<u8>>::empty());
        }
        r
    }

    /// Canonicalizes a byte string: returns the token already handed out
    /// for this content, or hands out a fresh one. Idempotent and total;
    /// equal content always yields the same token.
    pub fn intern(&mut self, s: &[u8]) -> (id: Ident)
        requires
            old(self).wf(),
        ensures
            final(self).wf(),
            final(self)@ == intern_table(old(self)@, s@),
            id.tok == intern_tok(old(self)@, s@),
            id.bytes@ == s@,
            ident_wf(id, final(self)@),
    {
        let n = self.table.len();
        let mut i: usize = 0;
        while i < n
            invariant
                n == self.table@.len(),
                0 <= i <= n,
                forall|k: int| 0 <= k < i ==> self@[k] != s@,
                self.wf(),
            decreases n - i,
        {
            if bytes_equal(self.table[i].as_slice(), s) {
                proof {
                    assert(self@[i as int] == s@);
                    let j = choose|j: int| 0 <= j < self@.len() && self@[j] == s@;
                    assert(self@[j] == s@);
                    if j != i {
                        assert(self@[j] != self@[i as int]);
                    }
                    assert(intern_tok(self@, s@) == i);
                }
                return Ident { tok: i, bytes: clone_bytes(&self.table[i]) };
            }
            i += 1;
        }
        proof {
            assert(forall|k: int| 0 <= k < self@.len() ==> self@[k] != s@);
            assert(!exists|k: int| 0 <= k < self@.len() && self@[k] == s@);
        }
        let ghost told = self@;
        let tok = self.table.len();
        self.table.push(clone_bytes_slice(s));
        proof {
            assert(self@ =~= told.push(s@));
            assert forall|a: int, b: int| 0 <= a < b < self@.len() implies self@[a] != self@[b] by {
                if b < told.len() {
                } else {
                    assert(self@[b] == s@);
                    assert(told[a] != s@);
                }
            }
        }
        Ident { tok, bytes: clone_bytes_slice(s) }
    }
}

/// Copies a byte string out of a borrowed slice.
fn clone_bytes_slice(v: &[u8]) -> (r: Vec<u8>)
    ensures
        r@ == v@,
{
    let mut r: Vec<u8> = Vec::new();
    let n = v.len();
    let mut i: usize = 0;
    while i < n
        invariant
            n == v@.len(),
            0 <= i <= n,
            r@ == v@.subrange(0, i as int),
        decreases n - i,
    {
        r.push(v[i]);
        proof {
            assert(r@ =~= v@.subrange(0, i + 1));
        }
        i += 1;
    }
    proof {
        assert(v@.subrange(0, n as int) =~= v@);
    }
    r
}

impl Ident {
    /// Renders the identifier's bytes as text, by std's lossy UTF-8
    /// decoding: always [`lossy_decode`] of the bytes, and exactly the
    /// decoded scalar sequence for valid UTF-8 content.
    pub fn str(&self) -> (r: String)
        ensures
            r@ == lossy_decode(self.bytes@),
            vstd::utf8::valid_utf8(self.bytes@) ==> r@ == vstd::utf8::decode_utf8(self.bytes@),
    {
        decode_bytes(self.bytes.as_slice())
    }

    /// The identifier's byte content.
    pub fn slice(&self) -> (r: &[u8])
        ensures
            r@ == self.bytes@,
    {
        self.bytes.as_slice()
    }

    /// A second handle to the same name: same token, same content.
    pub fn dup(&self) -> (r: Ident)
        ensures
            r.tok == self.tok,
            r.bytes@ == self.bytes@,
    {
        Ident { tok: self.tok, bytes: clone_bytes(&self.bytes) }
    }
}

/// The character sequence std's lossy UTF-8 decoding yields for the given
/// bytes: a function of the bytes alone. Where the bytes are valid UTF-8
/// it coincides with the decoded scalar sequence; where they are not,
/// invalid sequences come out as replacement characters, on whose exact
/// shape nothing further is assumed.
pub uninterp spec fn lossy_decode(b: Seq<u8>) -> Seq<char>;

/// Relies on `String::from_utf8_lossy`: the result depends on the bytes
/// alone, and for valid UTF-8 input it is exactly the decoded scalar
/// sequence.
#[verifier::external_body]
fn decode_bytes(b: &[u8]) -> (r: String)
    ensures
        r@ == lossy_decode(b@),
        vstd::utf8::valid_utf8(b@) ==> r@ == vstd::utf8::decode_utf8(b@),
{
    String::from_utf8_lossy(b).into_owned()
}

/// Interning is idempotent: interning the same content a second time
/// changes nothing and yields the same token.
pub proof fn lemma_intern_idempotent(t: Seq<Seq<u8>>, b: Seq<u8>)
    ensures
        intern_table(intern_table(t, b), b) == intern_table(t, b),
        intern_tok(intern_table(t, b), b) == intern_tok(t, b),
{
    let t1 = intern_table(t, b);
    if exists|i: int| 0 <= i < t.len() && t[i] == b {
        assert(t1 == t);
    } else {
        assert(t1 == t.push(b));
        assert(t1[t.len() as int] == b);
        assert(exists|i: int| 0 <= i < t1.len() && t1[i] == b);
        let j = choose|i: int| 0 <= i < t1.len() && t1[i] == b;
        if j < t.len() {
            assert(t[j] == t1[j]);
        }
        assert(j == t.len() as int);
        assert(intern_tok(t1, b) == t.len() as int);
    }
}

/// Tokens are the identity of names: under a well-formed cache, two handed
/// out identifiers carry equal tokens exactly when they carry equal bytes.
pub proof fn lemma_token_identity(t: Seq<Seq<u8>>, a: Ident, b: Ident)
    requires
        distinct_entries(t),
        ident_wf(a, t),
        ident_wf(b, t),
    ensures
        a.tok == b.tok <==> a.bytes@ == b.bytes@,
{
    if a.bytes@ == b.bytes@ && a.tok != b.tok {
        if a.tok < b.tok {
            assert(t[a.tok as int] != t[b.tok as int]);
        } else {
            assert(t[b.tok as int] != t[a.tok as int]);
        }
    }
}

} // verus!
