//! The byte format in which a Move function takes an argument of type `vector<u8>`.

#[allow(unused_imports)]
use vstd::arithmetic::power::pow;
use vstd::prelude::*;

verus! {

/// The longest sequence that the format can hold.
pub const MAX_SEQUENCE_LENGTH: usize = 0x7fff_ffff;

/// `n` in base 128, least significant digit first; every digit but the last has its
/// high bit set.
pub open spec fn uleb128(n: nat) -> Seq<u8>
    decreases n,
{
    if n < 0x80 {
        seq![n as u8]
    } else {
        seq![(0x80 + n % 0x80) as u8] + uleb128(n / 0x80)
    }
}

/// The encoding of a `vector<u8>`: its length, then its bytes.
pub open spec fn vector_u8_bytes(v: Seq<u8>) -> Seq<u8> {
    uleb128(v.len()) + v
}

/// Writes a `vector<u8>` in the format that `MoveValue::simple_serialize` of
/// `move_core_types` gives it; a sequence too long for the format gives `None`.
pub(crate) fn serialize_vector_u8(v: Vec<u8>) -> (encoded: Option<Vec<u8>>)
    ensures
        encoded is Some <==> v@.len() <= MAX_SEQUENCE_LENGTH,
        encoded is Some <==> v@.len() < 0x8000_0000,
        encoded matches Some(bytes) ==> bytes@ == vector_u8_bytes(v@),
{
    if v.len() > MAX_SEQUENCE_LENGTH {
        return None;
    }
    let mut bytes: Vec<u8> = Vec::new();
    let mut rest: usize = v.len();
    while rest >= 0x80
        invariant
            uleb128(v@.len()) == bytes@ + uleb128(rest as nat),
        decreases rest,
    {
        let ghost written = bytes@;
        bytes.push((0x80 + rest % 0x80) as u8);
        assert(written + uleb128(rest as nat) =~= bytes@ + uleb128((rest / 0x80) as nat));
        rest = rest / 0x80;
    }
    bytes.push(rest as u8);
    assert(bytes@ =~= uleb128(v@.len()));
    let mut tail = v;
    bytes.append(&mut tail);
    Some(bytes)
}

/// `uleb128` writes a number in base 128: its digits come in order, the least significant
/// first, as many as the number has and no more.
pub proof fn uleb128_digits(n: nat)
    ensures
        uleb128(n).len() >= 1,
        forall|k: int|
            0 <= k < uleb128(n).len() ==> #[trigger] uleb128(n)[k] == (n as int / pow(
                128,
                k as nat,
            )) % 128 + (if k + 1 < uleb128(n).len() {
                128int
            } else {
                0
            }),
        n < pow(128, uleb128(n).len()),
        uleb128(n).len() > 1 ==> pow(128, (uleb128(n).len() - 1) as nat) <= n,
    decreases n,
{
    reveal(pow);
    let d = uleb128(n);
    assert(pow(128, 0) == 1);
    if n < 0x80 {
        assert(pow(128, 1) == 128 * pow(128, 0));
    } else {
        let rest = n / 0x80;
        let e = uleb128(rest);
        uleb128_digits(rest);
        assert(d.len() == e.len() + 1);
        assert forall|k: int| 0 <= k < d.len() implies #[trigger] d[k] == (n as int / pow(
            128,
            k as nat,
        )) % 128 + (if k + 1 < d.len() {
            128int
        } else {
            0
        }) by {
            if k > 0 {
                assert(d[k] == e[k - 1]);
                assert(pow(128, k as nat) == 128 * pow(128, (k - 1) as nat));
                vstd::arithmetic::power::lemma_pow_positive(128, (k - 1) as nat);
                vstd::arithmetic::div_mod::lemma_div_denominator(n as int, 128, pow(128, (k - 1) as nat));
            }
        }
        assert(pow(128, d.len()) == 128 * pow(128, e.len()));
        assert(pow(128, e.len()) == 128 * pow(128, (e.len() - 1) as nat));
    }
}

/// An encoded sequence is its length in base 128, the least significant digit first and
/// every digit but the last with its high bit set, and then the sequence itself, each byte
/// in its place.
pub proof fn vector_u8_bytes_layout(v: Seq<u8>)
    ensures
        vector_u8_bytes(v).len() > v.len(),
        ({
            let bytes = vector_u8_bytes(v);
            let n = bytes.len() - v.len();
            &&& forall|k: int|
                0 <= k < n ==> #[trigger] bytes[k] == (v.len() as int / pow(128, k as nat)) % 128
                    + (if k + 1 < n {
                    128int
                } else {
                    0
                })
            &&& v.len() < pow(128, n as nat)
            &&& n > 1 ==> pow(128, (n - 1) as nat) <= v.len()
            &&& forall|i: int| 0 <= i < v.len() ==> bytes[n + i] == #[trigger] v[i]
        }),
{
    uleb128_digits(v.len());
    let bytes = vector_u8_bytes(v);
    let n = bytes.len() - v.len();
    assert(forall|k: int| 0 <= k < n ==> #[trigger] bytes[k] == uleb128(v.len())[k]);
}

/// No encoded length is the beginning of another: where two start the same bytes, they
/// are the same length, and the same bytes follow.
proof fn lemma_uleb128_prefix_free(m: nat, s: Seq<u8>, n: nat, t: Seq<u8>)
    requires
        uleb128(m) + s == uleb128(n) + t,
    ensures
        m == n,
        s == t,
    decreases m,
{
    let a = uleb128(m) + s;
    let b = uleb128(n) + t;
    assert(a[0] == uleb128(m)[0] && b[0] == uleb128(n)[0]);
    if m < 0x80 {
        assert(n < 0x80);
        assert(s =~= a.skip(1));
        assert(t =~= b.skip(1));
    } else {
        assert(n >= 0x80);
        assert(a.skip(1) =~= uleb128(m / 0x80) + s);
        assert(b.skip(1) =~= uleb128(n / 0x80) + t);
        lemma_uleb128_prefix_free(m / 0x80, s, n / 0x80, t);
    }
}

/// The encoding delimits itself: bytes that begin with the encoding of a sequence begin
/// with the encoding of no other, so a reader recovers the sequence and what follows it.
pub proof fn vector_u8_bytes_prefix_free(v: Seq<u8>, s: Seq<u8>, w: Seq<u8>, t: Seq<u8>)
    requires
        vector_u8_bytes(v) + s == vector_u8_bytes(w) + t,
    ensures
        v == w,
        s == t,
{
    assert(vector_u8_bytes(v) + s =~= uleb128(v.len()) + (v + s));
    assert(vector_u8_bytes(w) + t =~= uleb128(w.len()) + (w + t));
    lemma_uleb128_prefix_free(v.len(), v + s, w.len(), w + t);
    assert(v =~= (v + s).take(v.len() as int));
    assert(w =~= (w + t).take(w.len() as int));
    assert(s =~= (v + s).skip(v.len() as int));
    assert(t =~= (w + t).skip(w.len() as int));
}

} // verus!
