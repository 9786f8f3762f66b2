use vstd::prelude::*;

use cairo_lang_starknet_classes::keccak::starknet_keccak;
use vstd::utf8::encode_utf8;

verus! {

/// The 64-bit digits, least significant first, of what `starknet_keccak`
/// returns for `data`.
pub uninterp spec fn keccak_digits(data: Seq<u8>) -> Seq<u64>;

/// Relies on `cairo_lang_starknet_classes::keccak::starknet_keccak`, which
/// hashes `data` with Keccak-256 and keeps the low 250 bits, and on
/// `BigUint::to_u64_digits`, which lists the digits least significant first
/// and without trailing zeros: a value under 2^250 has at most four.
#[verifier::external_body]
fn starknet_keccak_digits(data: &[u8]) -> (r: Vec<u64>)
    ensures
        r@ == keccak_digits(data@),
        r@.len() <= 4,
{
    starknet_keccak(data).to_u64_digits()
}

/// A selector or an interface id: a field-sized integer held as four 64-bit
/// digits, least significant first.
#[derive(Clone, Copy, Debug, PartialEq, Eq)]
pub struct Selector {
    pub digits: [u64; 4],
}

/// Digits extended with zeros to four.
pub open spec fn pad_digits(d: Seq<u64>) -> Seq<u64> {
    Seq::new(4, |i: int| if i < d.len() { d[i] } else { 0u64 })
}

/// The selector of a signature: the hash of its UTF-8 bytes.
pub open spec fn selector_of(signature: Seq<char>) -> Seq<u64> {
    pad_digits(keccak_digits(encode_utf8(signature)))
}

/// The identifier that no function contributes to.
pub open spec fn zero_digits() -> Seq<u64> {
    Seq::new(4, |i: int| 0u64)
}

/// Digit-wise exclusive or.
pub open spec fn xor_digits(a: Seq<u64>, b: Seq<u64>) -> Seq<u64> {
    Seq::new(4, |i: int| a[i] ^ b[i])
}

/// The exclusive or of all the selectors in `s`, from the left.
pub open spec fn xor_all(s: Seq<Seq<u64>>) -> Seq<u64>
    decreases s.len(),
{
    if s.len() == 0 {
        zero_digits()
    } else {
        xor_digits(xor_all(s.drop_last()), s.last())
    }
}

/// The selector of an extended function selector signature.
pub fn get_selector_from_signature(signature: &str) -> (r: Selector)
    ensures
        r.digits@ == selector_of(signature@),
{
    let d = starknet_keccak_digits(signature.as_bytes());
    let d0: u64 = if d.len() > 0 { d[0] } else { 0 };
    let d1: u64 = if d.len() > 1 { d[1] } else { 0 };
    let d2: u64 = if d.len() > 2 { d[2] } else { 0 };
    let d3: u64 = if d.len() > 3 { d[3] } else { 0 };
    let r = Selector { digits: [d0, d1, d2, d3] };
    proof {
        assert(r.digits@ =~= pad_digits(d@));
    }
    r
}

impl Selector {
    /// The identifier of an interface with no functions.
    pub fn zero() -> (r: Selector)
        ensures
            r.digits@ == zero_digits(),
    {
        let r = Selector { digits: [0, 0, 0, 0] };
        proof {
            assert(r.digits@ =~= zero_digits());
        }
        r
    }

    /// Digit-wise exclusive or of two selectors.
    pub fn xor(&self, other: &Selector) -> (r: Selector)
        ensures
            r.digits@ == xor_digits(self.digits@, other.digits@),
    {
        let r = Selector {
            digits: [
                self.digits[0] ^ other.digits[0],
                self.digits[1] ^ other.digits[1],
                self.digits[2] ^ other.digits[2],
                self.digits[3] ^ other.digits[3],
            ],
        };
        proof {
            assert(r.digits@ =~= xor_digits(self.digits@, other.digits@));
        }
        r
    }
}

/// The views of a list of selectors.
pub open spec fn digits_view(s: Seq<Selector>) -> Seq<Seq<u64>> {
    s.map_values(|x: Selector| x.digits@)
}

/// The interface id of a list of selectors: their exclusive or; zero for none.
pub fn get_interface_id(selectors: &Vec<Selector>) -> (r: Selector)
    ensures
        r.digits@ == xor_all(digits_view(selectors@)),
        selectors@.len() == 0 ==> r.digits@ == zero_digits(),
{
    let ghost dv = digits_view(selectors@);
    let mut acc = Selector::zero();
    let mut i: usize = 0;
    while i < selectors.len()
        invariant
            i <= selectors.len(),
            dv == digits_view(selectors@),
            acc.digits@ == xor_all(dv.subrange(0, i as int)),
        decreases selectors.len() - i,
    {
        proof {
            assert(dv.subrange(0, i + 1).drop_last() =~= dv.subrange(0, i as int));
        }
        acc = acc.xor(&selectors[i]);
        i += 1;
    }
    proof {
        assert(dv.subrange(0, selectors.len() as int) =~= dv);
    }
    acc
}

proof fn lemma_xor_swap(a: u64, b: u64, c: u64)
    by (bit_vector)
    ensures
        (a ^ b) ^ c == (a ^ c) ^ b,
{
}

proof fn lemma_xor_digits_swap(a: Seq<u64>, x: Seq<u64>, y: Seq<u64>)
    ensures
        xor_digits(xor_digits(a, x), y) == xor_digits(xor_digits(a, y), x),
{
    assert forall|i: int| 0 <= i < 4 implies #[trigger] xor_digits(xor_digits(a, x), y)[i]
        == xor_digits(xor_digits(a, y), x)[i] by {
        lemma_xor_swap(a[i], x[i], y[i]);
    }
    assert(xor_digits(xor_digits(a, x), y) =~= xor_digits(xor_digits(a, y), x));
}

/// Taking any one selector out of the fold and applying it last gives the same id.
proof fn lemma_xor_all_remove<A>(s: Seq<A>, f: spec_fn(A) -> Seq<u64>, k: int)
    requires
        0 <= k < s.len(),
    ensures
        xor_all(s.map_values(f)) == xor_digits(xor_all(s.remove(k).map_values(f)), f(s[k])),
    decreases s.len(),
{
    let p = s.drop_last();
    assert(s.map_values(f).drop_last() =~= p.map_values(f));
    if k == s.len() - 1 {
        assert(s.remove(k) =~= p);
    } else {
        lemma_xor_all_remove(p, f, k);
        assert(s.remove(k).map_values(f).drop_last() =~= p.remove(k).map_values(f));
        assert(s.remove(k).map_values(f).last() == f(s.last()));
        lemma_xor_digits_swap(xor_all(p.remove(k).map_values(f)), f(s[k]), f(s.last()));
    }
}

/// Folding the selectors of any reordering of the same items gives the same id.
pub proof fn lemma_xor_all_permutation<A>(a: Seq<A>, b: Seq<A>, f: spec_fn(A) -> Seq<u64>)
    requires
        a.to_multiset() == b.to_multiset(),
    ensures
        xor_all(a.map_values(f)) == xor_all(b.map_values(f)),
    decreases a.len(),
{
    broadcast use vstd::seq_lib::group_to_multiset_ensures;

    if a.len() == 0 {
        assert(a.to_multiset().len() == a.len());
        assert(b.to_multiset().len() == b.len());
        assert(b.len() == 0);
        assert(a.map_values(f) =~= b.map_values(f));
    } else {
        let n = a.len() - 1;
        let x = a[n];
        assert(a.contains(x));
        assert(b.to_multiset().count(x) > 0);
        assert(b.contains(x));
        let k = choose|k: int| 0 <= k < b.len() && b[k] == x;
        assert(a.remove(n) =~= a.drop_last());
        assert(a.remove(n).to_multiset() == a.to_multiset().remove(x));
        assert(b.remove(k).to_multiset() == b.to_multiset().remove(x));
        lemma_xor_all_permutation(a.drop_last(), b.remove(k), f);
        lemma_xor_all_remove(b, f, k);
        assert(a.map_values(f).drop_last() =~= a.drop_last().map_values(f));
    }
}

/// The interface id does not depend on the order of the selectors, and the
/// id of no selectors is zero.
pub proof fn lemma_interface_id_order_independent(a: Seq<Selector>, b: Seq<Selector>)
    requires
        a.to_multiset() == b.to_multiset(),
    ensures
        xor_all(digits_view(a)) == xor_all(digits_view(b)),
        xor_all(digits_view(Seq::<Selector>::empty())) == zero_digits(),
{
    lemma_xor_all_permutation(a, b, |x: Selector| x.digits@);
}

/// The lowercase hexadecimal digit of a value under sixteen.
pub open spec fn hex_char(n: u64) -> char {
    if n == 0 {
        '0'
    } else if n == 1 {
        '1'
    } else if n == 2 {
        '2'
    } else if n == 3 {
        '3'
    } else if n == 4 {
        '4'
    } else if n == 5 {
        '5'
    } else if n == 6 {
        '6'
    } else if n == 7 {
        '7'
    } else if n == 8 {
        '8'
    } else if n == 9 {
        '9'
    } else if n == 10 {
        'a'
    } else if n == 11 {
        'b'
    } else if n == 12 {
        'c'
    } else if n == 13 {
        'd'
    } else if n == 14 {
        'e'
    } else {
        'f'
    }
}

/// The sixteen hexadecimal digits of a 64-bit value, most significant first.
pub open spec fn digit_hex(d: u64) -> Seq<char> {
    Seq::new(16, |i: int| hex_char((d >> ((60 - 4 * i) as u64)) & 15u64))
}

/// A selector written as `0x` and sixty-four hexadecimal digits.
pub open spec fn selector_hex(digits: Seq<u64>) -> Seq<char> {
    "0x"@ + digit_hex(digits[3]) + digit_hex(digits[2]) + digit_hex(digits[1]) + digit_hex(digits[0])
}

fn hex_digit(n: u64) -> (r: &'static str)
    requires
        n < 16,
    ensures
        r@ == seq![hex_char(n)],
{
    if n == 0 {
        proof {
            reveal_strlit("0");
        }
        "0"
    } else if n == 1 {
        proof {
            reveal_strlit("1");
        }
        "1"
    } else if n == 2 {
        proof {
            reveal_strlit("2");
        }
        "2"
    } else if n == 3 {
        proof {
            reveal_strlit("3");
        }
        "3"
    } else if n == 4 {
        proof {
            reveal_strlit("4");
        }
        "4"
    } else if n == 5 {
        proof {
            reveal_strlit("5");
        }
        "5"
    } else if n == 6 {
        proof {
            reveal_strlit("6");
        }
        "6"
    } else if n == 7 {
        proof {
            reveal_strlit("7");
        }
        "7"
    } else if n == 8 {
        proof {
            reveal_strlit("8");
        }
        "8"
    } else if n == 9 {
        proof {
            reveal_strlit("9");
        }
        "9"
    } else if n == 10 {
        proof {
            reveal_strlit("a");
        }
        "a"
    } else if n == 11 {
        proof {
            reveal_strlit("b");
        }
        "b"
    } else if n == 12 {
        proof {
            reveal_strlit("c");
        }
        "c"
    } else if n == 13 {
        proof {
            reveal_strlit("d");
        }
        "d"
    } else if n == 14 {
        proof {
            reveal_strlit("e");
        }
        "e"
    } else {
        proof {
            reveal_strlit("f");
        }
        "f"
    }
}

fn append_digit_hex(out: &mut String, d: u64)
    ensures
        final(out)@ == old(out)@ + digit_hex(d),
{
    let ghost start = out@;
    let mut i: u64 = 0;
    while i < 16
        invariant
            i <= 16,
            out@ == start + digit_hex(d).subrange(0, i as int),
        decreases 16 - i,
    {
        let shift: u64 = 60 - 4 * i;
        let n = (d >> shift) & 15;
        assert(n < 16) by (bit_vector)
            requires
                n == (d >> shift) & 15u64,
        ;
        out.append(hex_digit(n));
        proof {
            assert(digit_hex(d).subrange(0, i + 1) =~= digit_hex(d).subrange(0, i as int).push(
                hex_char(n),
            ));
        }
        i += 1;
    }
    proof {
        assert(digit_hex(d).subrange(0, 16) =~= digit_hex(d));
    }
}

impl Selector {
    /// This selector as `0x` followed by sixty-four lowercase hexadecimal digits.
    pub fn to_hex(&self) -> (r: String)
        ensures
            r@ == selector_hex(self.digits@),
    {
        let mut out = String::from_str("0x");
        append_digit_hex(&mut out, self.digits[3]);
        append_digit_hex(&mut out, self.digits[2]);
        append_digit_hex(&mut out, self.digits[1]);
        append_digit_hex(&mut out, self.digits[0]);
        out
    }
}

} // verus!
