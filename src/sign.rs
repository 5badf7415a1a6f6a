//! The signature that a check-in request carries: the lowercase hex form of
//! the MD5 digest of a fixed text built around the forum name and the
//! session verifier.

use vstd::prelude::*;
use vstd::utf8::encode_utf8;

verus! {

/// What the MD5 digest of a byte sequence is.
pub uninterp spec fn md5_of(data: Seq<u8>) -> Seq<u8>;

/// Relies on `md5::compute`: it returns the sixteen-byte MD5 digest of its input.
#[verifier::external_body]
fn md5_digest(data: &[u8]) -> (r: Vec<u8>)
    ensures
        r@ == md5_of(data@),
        r@.len() == 16,
{
    md5::compute(data).0.to_vec()
}

/// The sixteen lowercase hex digits, by value.
pub open spec fn hex_digits() -> Seq<char> {
    seq!['0', '1', '2', '3', '4', '5', '6', '7', '8', '9', 'a', 'b', 'c', 'd', 'e', 'f']
}

/// Two lowercase hex digits per byte, high nibble first.
pub open spec fn hex_lower(b: Seq<u8>) -> Seq<char>
    decreases b.len(),
{
    if b.len() == 0 {
        Seq::empty()
    } else {
        hex_lower(b.drop_last()) + seq![
            hex_digits()[(b.last() / 16) as int],
            hex_digits()[(b.last() % 16) as int],
        ]
    }
}

/// The text that is hashed to sign a check-in of `forum` with verifier `tbs`.
pub open spec fn sign_text(forum: Seq<char>, tbs: Seq<char>) -> Seq<char> {
    "kw="@ + forum + "tbs="@ + tbs + "tiebaclient!!!"@
}

/// The signature of a check-in of `forum` with verifier `tbs`.
pub open spec fn signature(forum: Seq<char>, tbs: Seq<char>) -> Seq<char> {
    hex_lower(md5_of(encode_utf8(sign_text(forum, tbs))))
}

pub open spec fn is_lower_hex(s: Seq<char>) -> bool {
    forall|i: int| 0 <= i < s.len() ==> #[trigger] hex_digits().contains(s[i])
}

/// Hex rendering gives two digits per byte, each a lowercase hex digit.
pub proof fn lemma_hex_shape(b: Seq<u8>)
    ensures
        hex_lower(b).len() == 2 * b.len(),
        is_lower_hex(hex_lower(b)),
    decreases b.len(),
{
    if b.len() > 0 {
        lemma_hex_shape(b.drop_last());
        let h = hex_lower(b);
        let p = hex_lower(b.drop_last());
        let hi = hex_digits()[(b.last() / 16) as int];
        let lo = hex_digits()[(b.last() % 16) as int];
        assert(hex_digits().contains(hi));
        assert(hex_digits().contains(lo));
        assert forall|i: int| 0 <= i < h.len() implies #[trigger] hex_digits().contains(h[i]) by {
            if i < p.len() {
                assert(h[i] == p[i]);
            }
        }
    }
}

/// Signing is reproducible: equal forum names and verifiers give equal
/// signatures.
pub proof fn lemma_sign_reproducible(f1: Seq<char>, t1: Seq<char>, f2: Seq<char>, t2: Seq<char>)
    requires
        f1 == f2,
        t1 == t2,
    ensures
        signature(f1, t1) == signature(f2, t2),
{
}

/// Renders a digest as lowercase hex, two digits per byte.
pub fn digest_hex(digest: &[u8]) -> (r: String)
    ensures
        r@ == hex_lower(digest@),
{
    let digits: &str = "0123456789abcdef";
    proof {
        reveal_strlit("0123456789abcdef");
        assert(digits@ =~= hex_digits());
    }
    let mut out = String::new();
    let mut i: usize = 0;
    while i < digest.len()
        invariant
            i <= digest@.len(),
            digits@ == hex_digits(),
            out@ == hex_lower(digest@.subrange(0, i as int)),
        decreases digest@.len() - i,
    {
        let b: u8 = digest[i];
        let hi: usize = (b / 16) as usize;
        let lo: usize = (b % 16) as usize;
        out.append(digits.substring_char(hi, hi + 1));
        out.append(digits.substring_char(lo, lo + 1));
        proof {
            let prefix = digest@.subrange(0, i + 1);
            assert(prefix.drop_last() =~= digest@.subrange(0, i as int));
            assert(digits@.subrange(hi as int, hi + 1) =~= seq![hex_digits()[hi as int]]);
            assert(digits@.subrange(lo as int, lo + 1) =~= seq![hex_digits()[lo as int]]);
        }
        i = i + 1;
        proof {
            assert(out@ =~= hex_lower(digest@.subrange(0, i as int)));
        }
    }
    proof {
        assert(digest@.subrange(0, digest@.len() as int) =~= digest@);
    }
    out
}

/// The text that is hashed to sign a check-in of `forum` with verifier `tbs`.
pub fn signing_text(forum: &str, tbs: &str) -> (r: String)
    ensures
        r@ == sign_text(forum@, tbs@),
{
    let mut s = String::from_str("kw=");
    s.append(forum);
    s.append("tbs=");
    s.append(tbs);
    s.append("tiebaclient!!!");
    s
}

/// Signs a check-in of `forum` with verifier `tbs`: the same pair always
/// gives the same signature, and signing never fails.
pub fn sign(forum: &str, tbs: &str) -> (r: String)
    ensures
        r@ == signature(forum@, tbs@),
        r@.len() == 32,
        is_lower_hex(r@),
{
    let text = signing_text(forum, tbs);
    let digest = md5_digest(text.as_str().as_bytes());
    proof {
        lemma_hex_shape(digest@);
    }
    digest_hex(digest.as_slice())
}

} // verus!
