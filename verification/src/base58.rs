use vstd::prelude::*;

verus! {

/// The digit `d` (0 to 57) of the Bitcoin Base58 alphabet
/// `123456789ABCDEFGHJKLMNPQRSTUVWXYZabcdefghijkmnopqrstuvwxyz`.
pub open spec fn base58_char(d: int) -> char {
    if d < 9 {
        ('1' as int + d) as char
    } else if d < 17 {
        ('A' as int + (d - 9)) as char
    } else if d < 22 {
        ('J' as int + (d - 17)) as char
    } else if d < 33 {
        ('P' as int + (d - 22)) as char
    } else if d < 44 {
        ('a' as int + (d - 33)) as char
    } else {
        ('m' as int + (d - 44)) as char
    }
}

/// Whether a character belongs to the Bitcoin Base58 alphabet.
pub open spec fn is_base58_char(c: char) -> bool {
    let x = c as int;
    ('1' as int <= x <= '9' as int) || ('A' as int <= x <= 'H' as int) || ('J' as int <= x
        <= 'N' as int) || ('P' as int <= x <= 'Z' as int) || ('a' as int <= x <= 'k' as int) || (
    'm' as int <= x <= 'z' as int)
}

/// The number that a byte sequence writes in big-endian order.
pub open spec fn be_value(data: Seq<u8>) -> nat
    decreases data.len(),
{
    if data.len() == 0 {
        0
    } else {
        be_value(data.drop_last()) * 256 + data.last() as nat
    }
}

/// The Base58 digits of a number, most significant first; none for zero.
pub open spec fn base58_digits(n: nat) -> Seq<char>
    decreases n,
{
    if n == 0 {
        Seq::empty()
    } else {
        base58_digits(n / 58).push(base58_char((n % 58) as int))
    }
}

/// The number of zero bytes that a byte sequence starts with.
pub open spec fn leading_zeros(data: Seq<u8>) -> nat
    decreases data.len(),
{
    if data.len() > 0 && data[0] == 0 {
        1 + leading_zeros(data.drop_first())
    } else {
        0
    }
}

/// The Base58 text of a byte sequence: a `1` for each leading zero byte,
/// then the Base58 digits of the number that the bytes write.
pub open spec fn base58_text(data: Seq<u8>) -> Seq<char> {
    Seq::new(leading_zeros(data), |i: int| '1') + base58_digits(be_value(data))
}

pub open spec fn pow256(n: nat) -> nat
    decreases n,
{
    if n == 0 {
        1
    } else {
        256 * pow256((n - 1) as nat)
    }
}

pub open spec fn pow58(n: nat) -> nat
    decreases n,
{
    if n == 0 {
        1
    } else {
        58 * pow58((n - 1) as nat)
    }
}

proof fn lemma_char_digit(d: int)
    requires
        0 <= d < 58,
    ensures
        is_base58_char(base58_char(d)),
        base58_char(d) == '1' <==> d == 0,
{
    let x = base58_char(d) as int;
    if d < 9 {
        assert(x == 0x31 + d);
    } else if d < 17 {
        assert(x == 0x41 + d - 9);
    } else if d < 22 {
        assert(x == 0x4a + d - 17);
    } else if d < 33 {
        assert(x == 0x50 + d - 22);
    } else if d < 44 {
        assert(x == 0x61 + d - 33);
    } else {
        assert(x == 0x6d + d - 44);
    }
}

proof fn lemma_char_injective(d: int, e: int)
    requires
        0 <= d < 58,
        0 <= e < 58,
        base58_char(d) == base58_char(e),
    ensures
        d == e,
{
    assert(base58_char(d) as int == base58_char(e) as int);
}

proof fn lemma_digits_chars(n: nat)
    ensures
        forall|i: int| 0 <= i < base58_digits(n).len() ==> is_base58_char(#[trigger] base58_digits(n)[i]),
        n > 0 ==> base58_digits(n).len() > 0 && base58_digits(n)[0] != '1',
    decreases n,
{
    if n > 0 {
        let prev = base58_digits(n / 58);
        let c = base58_char((n % 58) as int);
        lemma_digits_chars(n / 58);
        lemma_char_digit((n % 58) as int);
        assert(base58_digits(n) == prev.push(c));
        assert forall|i: int| 0 <= i < base58_digits(n).len() implies is_base58_char(
            #[trigger] base58_digits(n)[i],
        ) by {
            if i < prev.len() {
                assert(base58_digits(n)[i] == prev[i]);
            }
        }
        if n / 58 == 0 {
            assert(n % 58 == n);
            assert(base58_digits(n)[0] == c);
        } else {
            assert(base58_digits(n)[0] == prev[0]);
        }
    }
}

proof fn lemma_digits_injective(n: nat, m: nat)
    requires
        base58_digits(n) == base58_digits(m),
    ensures
        n == m,
    decreases n,
{
    if n > 0 && m > 0 {
        let dn = base58_digits(n);
        assert(dn.last() == base58_char((n % 58) as int));
        assert(base58_digits(m).last() == base58_char((m % 58) as int));
        lemma_char_injective((n % 58) as int, (m % 58) as int);
        assert(dn.drop_last() =~= base58_digits(n / 58));
        assert(base58_digits(m).drop_last() =~= base58_digits(m / 58));
        lemma_digits_injective(n / 58, m / 58);
    } else if n > 0 {
        assert(base58_digits(n).len() > 0);
    } else if m > 0 {
        assert(base58_digits(m).len() > 0);
    }
}

proof fn lemma_zero_prefix(t: Seq<u8>)
    ensures
        be_value(seq![0u8] + t) == be_value(t),
    decreases t.len(),
{
    let s = seq![0u8] + t;
    if t.len() == 0 {
        assert(s.drop_last() =~= Seq::<u8>::empty());
        assert(be_value(s.drop_last()) == 0);
        assert(be_value(s) == be_value(s.drop_last()) * 256 + s.last());
    } else {
        assert(s.drop_last() =~= seq![0u8] + t.drop_last());
        assert(s.last() == t.last());
        lemma_zero_prefix(t.drop_last());
        assert(be_value(s) == be_value(s.drop_last()) * 256 + s.last());
    }
}

proof fn lemma_strip_zeros(data: Seq<u8>)
    ensures
        leading_zeros(data) <= data.len(),
        forall|i: int| 0 <= i < leading_zeros(data) ==> data[i] == 0,
        be_value(data) == be_value(data.skip(leading_zeros(data) as int)),
        data.skip(leading_zeros(data) as int).len() > 0 ==> data.skip(
            leading_zeros(data) as int,
        )[0] != 0,
    decreases data.len(),
{
    let k = leading_zeros(data);
    if data.len() > 0 && data[0] == 0 {
        let rest = data.drop_first();
        lemma_strip_zeros(rest);
        assert(data =~= seq![0u8] + rest);
        lemma_zero_prefix(rest);
        assert(data.skip(k as int) =~= rest.skip(k - 1));
        assert forall|i: int| 0 <= i < k implies data[i] == 0 by {
            if i > 0 {
                assert(data[i] == rest[i - 1]);
            }
        }
    } else {
        assert(data.skip(0) =~= data);
    }
}

proof fn lemma_value_upper(s: Seq<u8>)
    ensures
        be_value(s) < pow256(s.len()),
    decreases s.len(),
{
    if s.len() > 0 {
        lemma_value_upper(s.drop_last());
    }
}

proof fn lemma_value_lower(s: Seq<u8>)
    requires
        s.len() > 0,
        s[0] != 0,
    ensures
        be_value(s) >= pow256((s.len() - 1) as nat),
    decreases s.len(),
{
    if s.len() == 1 {
        assert(s.drop_last() =~= Seq::<u8>::empty());
    } else {
        assert(s.drop_last()[0] == s[0]);
        lemma_value_lower(s.drop_last());
    }
}

proof fn lemma_pow256_monotone(i: nat, j: nat)
    requires
        i <= j,
    ensures
        pow256(i) <= pow256(j),
    decreases j - i,
{
    if i < j {
        lemma_pow256_monotone(i, (j - 1) as nat);
    }
}

proof fn lemma_pow256_ge_pow58(m: nat)
    ensures
        pow256(m) >= pow58(m),
    decreases m,
{
    if m > 0 {
        lemma_pow256_ge_pow58((m - 1) as nat);
    }
}

proof fn lemma_value_injective_same_len(a: Seq<u8>, b: Seq<u8>)
    requires
        a.len() == b.len(),
        be_value(a) == be_value(b),
    ensures
        a == b,
    decreases a.len(),
{
    if a.len() == 0 {
        assert(a =~= b);
    } else {
        let va = be_value(a.drop_last());
        let vb = be_value(b.drop_last());
        assert(va * 256 + a.last() == vb * 256 + b.last());
        assert(a.last() == b.last() && va == vb);
        lemma_value_injective_same_len(a.drop_last(), b.drop_last());
        assert(a =~= a.drop_last().push(a.last()));
        assert(b =~= b.drop_last().push(b.last()));
    }
}

proof fn lemma_minimal_same_len(a: Seq<u8>, b: Seq<u8>)
    requires
        a.len() == 0 || a[0] != 0,
        b.len() == 0 || b[0] != 0,
        be_value(a) == be_value(b),
    ensures
        a.len() == b.len(),
{
    if a.len() < b.len() {
        lemma_value_upper(a);
        lemma_value_lower(b);
        lemma_pow256_monotone(a.len(), (b.len() - 1) as nat);
    } else if b.len() < a.len() {
        lemma_value_upper(b);
        lemma_value_lower(a);
        lemma_pow256_monotone(b.len(), (a.len() - 1) as nat);
    }
}

/// Base58 is injective: two byte sequences with the same Base58 text are
/// equal.
pub proof fn lemma_base58_injective(a: Seq<u8>, b: Seq<u8>)
    requires
        base58_text(a) == base58_text(b),
    ensures
        a == b,
{
    let ka = leading_zeros(a);
    let kb = leading_zeros(b);
    let da = base58_digits(be_value(a));
    let db = base58_digits(be_value(b));
    let t = base58_text(a);
    lemma_digits_chars(be_value(a));
    lemma_digits_chars(be_value(b));
    if ka < kb {
        if da.len() > 0 {
            assert(t[ka as int] == da[0]);
            assert(base58_text(b)[ka as int] == '1');
        } else {
            assert(t.len() == ka);
        }
    } else if kb < ka {
        if db.len() > 0 {
            assert(base58_text(b)[kb as int] == db[0]);
            assert(t[kb as int] == '1');
        } else {
            assert(base58_text(b).len() == kb);
        }
    }
    assert(ka == kb);
    assert(da =~= t.skip(ka as int));
    assert(db =~= base58_text(b).skip(kb as int));
    lemma_digits_injective(be_value(a), be_value(b));
    lemma_strip_zeros(a);
    lemma_strip_zeros(b);
    let ra = a.skip(ka as int);
    let rb = b.skip(kb as int);
    lemma_minimal_same_len(ra, rb);
    lemma_value_injective_same_len(ra, rb);
    assert forall|i: int| 0 <= i < a.len() implies a[i] == b[i] by {
        if i >= ka {
            assert(a[i] == ra[i - ka]);
            assert(b[i] == rb[i - kb]);
        }
    }
    assert(a =~= b);
}

/// Every character of a Base58 text is from the Bitcoin alphabet.
pub proof fn lemma_base58_alphabet(data: Seq<u8>)
    ensures
        forall|i: int|
            0 <= i < base58_text(data).len() ==> is_base58_char(#[trigger] base58_text(data)[i]),
{
    let k = leading_zeros(data);
    let d = base58_digits(be_value(data));
    lemma_digits_chars(be_value(data));
    assert forall|i: int| 0 <= i < base58_text(data).len() implies is_base58_char(
        #[trigger] base58_text(data)[i],
    ) by {
        if i >= k {
            assert(base58_text(data)[i] == d[i - k]);
        } else {
            assert(base58_text(data)[i] == '1');
        }
    }
}

proof fn lemma_digits_len_upper(n: nat, d: nat)
    requires
        n < pow58(d),
    ensures
        base58_digits(n).len() <= d,
    decreases n,
{
    if n > 0 {
        assert(d > 0);
        let p = pow58((d - 1) as nat);
        assert(n < 58 * p);
        assert(n / 58 < p);
        lemma_digits_len_upper(n / 58, (d - 1) as nat);
    }
}

proof fn lemma_digits_len_lower(n: nat, d: nat)
    requires
        n >= pow58(d),
    ensures
        base58_digits(n).len() >= d + 1,
    decreases d,
{
    assert(pow58(d) >= 1) by {
        lemma_pow58_positive(d);
    }
    if d > 0 {
        let p = pow58((d - 1) as nat);
        assert(n >= 58 * p);
        assert(n / 58 >= p);
        lemma_digits_len_lower(n / 58, (d - 1) as nat);
    }
}

proof fn lemma_pow58_positive(d: nat)
    ensures
        pow58(d) >= 1,
    decreases d,
{
    if d > 0 {
        lemma_pow58_positive((d - 1) as nat);
    }
}

proof fn lemma_pow_gap(j: nat)
    requires
        j <= 32,
    ensures
        pow256(j) <= pow58(j + 12),
    decreases 32 - j,
{
    if j == 32 {
        assert(pow256(32)
            == 115792089237316195423570985008687907853269984665640564039457584007913129639936)
            by {
            reveal_with_fuel(pow256, 33);
        }
        assert(pow58(44)
            == 389790918707373377135528568990913592653094657612049369038476873218241589149696)
            by {
            reveal_with_fuel(pow58, 45);
        }
    } else {
        lemma_pow_gap(j + 1);
        assert(pow256(j + 1) == 256 * pow256(j));
        assert(pow58(j + 13) == 58 * pow58(j + 12));
    }
}

/// The Base58 text of 32 bytes (a SHA-256 digest) has 32 to 44 characters.
pub proof fn lemma_base58_length_of_32_bytes(data: Seq<u8>)
    requires
        data.len() == 32,
    ensures
        32 <= base58_text(data).len() <= 44,
{
    let k = leading_zeros(data);
    lemma_strip_zeros(data);
    let r = data.skip(k as int);
    let v = be_value(data);
    if r.len() > 0 {
        lemma_value_lower(r);
        lemma_value_upper(r);
        lemma_pow256_ge_pow58((r.len() - 1) as nat);
        lemma_digits_len_lower(v, (r.len() - 1) as nat);
        lemma_pow_gap(r.len());
        lemma_digits_len_upper(v, r.len() + 12);
    } else {
        assert(v == 0);
    }
}

} // verus!
