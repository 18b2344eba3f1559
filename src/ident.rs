use vstd::arithmetic::div_mod::{lemma_div_denominator, lemma_div_is_ordered, lemma_fundamental_div_mod};
use vstd::arithmetic::power::{lemma_pow_adds, lemma_pow_positive, pow};
use vstd::prelude::*;

verus! {

/// Number of characters of an id.
pub const ID_LEN: usize = 26;

/// Crockford's base-32 alphabet, in ascending order.
pub open spec fn crockford_alphabet() -> Seq<char> {
    seq![
        '0', '1', '2', '3', '4', '5', '6', '7', '8', '9',
        'A', 'B', 'C', 'D', 'E', 'F', 'G', 'H', 'J', 'K',
        'M', 'N', 'P', 'Q', 'R', 'S', 'T', 'V', 'W', 'X', 'Y', 'Z',
    ]
}

/// The number made of the first `i + 1` base-32 digits of a 26-digit id.
pub open spec fn id_prefix(n: u128, i: int) -> int {
    n as int / pow(32, (25 - i) as nat)
}

/// The base-32 digit at position `i` (0 is the most significant) of a 26-digit id.
pub open spec fn id_digit(n: u128, i: int) -> int {
    id_prefix(n, i) % 32
}

/// The text of an id: the number written with 26 base-32 digits in Crockford's
/// alphabet, most significant first.
pub open spec fn id_text(n: u128) -> Seq<char> {
    Seq::new(26, |i: int| crockford_alphabet()[id_digit(n, i)])
}

/// `a` sorts strictly before `b`, character by character.
pub open spec fn lex_lt(a: Seq<char>, b: Seq<char>) -> bool {
    exists|k: int|
        0 <= k < a.len() && k < b.len() && a[k] < b[k] && forall|j: int|
            0 <= j < k ==> a[j] == b[j]
}

proof fn lemma_pow32_step(j: nat)
    ensures
        pow(32, j) > 0,
        pow(32, j + 1) == pow(32, j) * 32,
{
    lemma_pow_positive(32, j);
    lemma_pow_adds(32, j, 1);
    vstd::arithmetic::power::lemma_pow1(32);
}

/// Writes `n` as an id.
pub fn id_text_of(n: u128) -> (r: String)
    ensures
        r@ == id_text(n),
{
    let mut digits: Vec<u8> = Vec::new();
    let mut value: u128 = n;
    let mut j: usize = 0;
    proof {
        vstd::arithmetic::power::lemma_pow0(32);
    }
    while j < ID_LEN
        invariant
            j <= ID_LEN,
            digits@.len() == j,
            value as int == n as int / pow(32, j as nat),
            forall|t: int| 0 <= t < j ==> digits@[t] as int == (n as int / pow(32, t as nat)) % 32,
        decreases ID_LEN - j,
    {
        digits.push((value % 32) as u8);
        proof {
            lemma_pow32_step(j as nat);
            lemma_div_denominator(n as int, pow(32, j as nat), 32);
        }
        value = value / 32;
        j = j + 1;
    }
    let alphabet = "0123456789ABCDEFGHJKMNPQRSTVWXYZ";
    proof {
        reveal_strlit("0123456789ABCDEFGHJKMNPQRSTVWXYZ");
        assert(alphabet@ =~= crockford_alphabet());
    }
    let mut s = String::new();
    let mut i: usize = 0;
    while i < ID_LEN
        invariant
            i <= ID_LEN,
            digits@.len() == ID_LEN,
            alphabet@ == crockford_alphabet(),
            forall|t: int| 0 <= t < ID_LEN ==> digits@[t] as int == (n as int / pow(32, t as nat)) % 32,
            s@ =~= id_text(n).subrange(0, i as int),
        decreases ID_LEN - i,
    {
        let d = digits[ID_LEN - 1 - i] as usize;
        let c = alphabet.substring_char(d, d + 1);
        s.append(c);
        assert(s@ =~= id_text(n).subrange(0, i + 1));
        i = i + 1;
    }
    assert(s@ =~= id_text(n));
    s
}

/// For `j <= i`, the first `j + 1` digits are the first `i + 1` digits with
/// the last `i - j` of them dropped.
proof fn lemma_prefix_of_prefix(n: u128, j: int, i: int)
    requires
        0 <= j <= i <= 25,
    ensures
        id_prefix(n, j) == id_prefix(n, i) / pow(32, (i - j) as nat),
{
    lemma_pow_positive(32, (25 - i) as nat);
    lemma_pow_positive(32, (i - j) as nat);
    lemma_pow_adds(32, (25 - i) as nat, (i - j) as nat);
    lemma_div_denominator(n as int, pow(32, (25 - i) as nat), pow(32, (i - j) as nat));
}

/// Adding a digit to a prefix.
proof fn lemma_prefix_step(n: u128, i: int)
    requires
        1 <= i <= 25,
    ensures
        id_prefix(n, i) == id_prefix(n, i - 1) * 32 + id_digit(n, i),
{
    lemma_prefix_of_prefix(n, i - 1, i);
    vstd::arithmetic::power::lemma_pow1(32);
    lemma_pow_positive(32, (25 - i) as nat);
    lemma_fundamental_div_mod(id_prefix(n, i), 32);
}

/// The first digit is the whole one-digit prefix.
proof fn lemma_first_digit(n: u128)
    ensures
        id_prefix(n, 0) == id_digit(n, 0),
{
    lemma_pow_adds(32, 25, 1);
    vstd::arithmetic::power::lemma_pow1(32);
    lemma_pow_positive(32, 25);
    assert(pow(32, 26) > 0xffff_ffff_ffff_ffff_ffff_ffff_ffff_ffff) by {
        vstd::arithmetic::power2::lemma2_to64();
        vstd::arithmetic::power2::lemma_pow2(5);
        vstd::arithmetic::power2::lemma_pow2(130);
        vstd::arithmetic::power2::lemma_pow2_adds(64, 66);
        vstd::arithmetic::power2::lemma_pow2_adds(64, 2);
        vstd::arithmetic::power::lemma_pow_multiplies(2, 5, 26);
    }
    lemma_div_denominator(n as int, pow(32, 25), 32);
    assert(pow(32, 26) == pow(32, 25) * 32);
    vstd::arithmetic::div_mod::lemma_basic_div(n as int, pow(32, 26));
    assert(id_prefix(n, 0) / 32 == 0);
    lemma_fundamental_div_mod(id_prefix(n, 0), 32);
}

proof fn lemma_prefix_order(a: u128, b: u128, i: int)
    requires
        0 <= i <= 25,
        id_prefix(a, i) < id_prefix(b, i),
    ensures
        exists|k: int|
            0 <= k <= i && id_digit(a, k) < id_digit(b, k) && forall|j: int|
                0 <= j < k ==> id_digit(a, j) == id_digit(b, j),
    decreases i,
{
    if i == 0 {
        lemma_first_digit(a);
        lemma_first_digit(b);
        assert(forall|j: int| 0 <= j < 0 ==> id_digit(a, j) == id_digit(b, j));
    } else if id_prefix(a, i - 1) < id_prefix(b, i - 1) {
        lemma_prefix_order(a, b, i - 1);
    } else {
        lemma_prefix_of_prefix(a, i - 1, i);
        lemma_prefix_of_prefix(b, i - 1, i);
        vstd::arithmetic::power::lemma_pow1(32);
        lemma_div_is_ordered(id_prefix(a, i), id_prefix(b, i), 32);
        lemma_prefix_step(a, i);
        lemma_prefix_step(b, i);
        assert forall|j: int| 0 <= j < i implies id_digit(a, j) == id_digit(b, j) by {
            lemma_prefix_of_prefix(a, j, i - 1);
            lemma_prefix_of_prefix(b, j, i - 1);
        }
    }
}

proof fn lemma_alphabet_ordered(x: int, y: int)
    requires
        0 <= x < y < 32,
    ensures
        crockford_alphabet()[x] < crockford_alphabet()[y],
{
}

/// Ids sort as the numbers they are written from: a greater number gives a
/// text that sorts strictly after, so the texts of distinct numbers differ.
pub proof fn lemma_id_text_order(a: u128, b: u128)
    requires
        a < b,
    ensures
        lex_lt(id_text(a), id_text(b)),
        id_text(a) != id_text(b),
{
    vstd::arithmetic::power::lemma_pow0(32);
    assert(id_prefix(a, 25) == a as int);
    assert(id_prefix(b, 25) == b as int);
    lemma_prefix_order(a, b, 25);
    let k = choose|k: int|
        0 <= k <= 25 && id_digit(a, k) < id_digit(b, k) && forall|j: int|
            0 <= j < k ==> id_digit(a, j) == id_digit(b, j);
    lemma_pow_positive(32, (25 - k) as nat);
    lemma_alphabet_ordered(id_digit(a, k), id_digit(b, k));
    assert(id_text(a)[k] < id_text(b)[k]);
}

proof fn lemma_chain_ordered(vals: Seq<u128>, i: int, j: int)
    requires
        forall|k: int| 0 <= k < vals.len() - 1 ==> #[trigger] vals[k] < vals[k + 1],
        0 <= i < j < vals.len(),
    ensures
        vals[i] < vals[j],
    decreases j - i,
{
    if j > i + 1 {
        lemma_chain_ordered(vals, i, j - 1);
        assert(vals[j - 1] < vals[j]);
    }
}

/// Ids drawn one after another, each greater than the one before, have texts
/// that are pairwise distinct and sort in the order they were drawn; each text
/// is 26 characters of Crockford's alphabet.
pub proof fn lemma_id_sequence_sorted(vals: Seq<u128>)
    requires
        forall|k: int| 0 <= k < vals.len() - 1 ==> #[trigger] vals[k] < vals[k + 1],
    ensures
        forall|i: int, j: int|
            0 <= i < j < vals.len() ==> lex_lt(#[trigger] id_text(vals[i]), #[trigger] id_text(vals[j]))
                && id_text(vals[i]) != id_text(vals[j]),
        forall|i: int| 0 <= i < vals.len() ==> #[trigger] id_text(vals[i]).len() == 26,
        forall|i: int, k: int|
            0 <= i < vals.len() && 0 <= k < 26 ==> crockford_alphabet().contains(
                #[trigger] id_text(vals[i])[k],
            ),
{
    assert forall|i: int, j: int| 0 <= i < j < vals.len() implies lex_lt(
        #[trigger] id_text(vals[i]),
        #[trigger] id_text(vals[j]),
    ) && id_text(vals[i]) != id_text(vals[j]) by {
        lemma_chain_ordered(vals, i, j);
        lemma_id_text_order(vals[i], vals[j]);
    }
    assert forall|i: int, k: int| 0 <= i < vals.len() && 0 <= k < 26 implies crockford_alphabet().contains(
        #[trigger] id_text(vals[i])[k],
    ) by {
        lemma_pow_positive(32, (25 - k) as nat);
        let d = id_digit(vals[i], k);
        assert(0 <= d < 32);
        assert(id_text(vals[i])[k] == crockford_alphabet()[d]);
    }
}

#[verifier::external_type_specification]
#[verifier::external_body]
pub struct ExGenerator(ulid::Generator);

/// Relies on `ulid::Generator::new` for a fresh monotonic ULID generator.
#[verifier::external_body]
fn ulid_generator() -> ulid::Generator {
    ulid::Generator::new()
}

/// Relies on `ulid::Generator::generate` for the next ULID as a number, or
/// nothing where its random part would overflow. It reads the clock and a
/// random source, so nothing is promised of the value.
#[verifier::external_body]
fn ulid_generate(g: &mut ulid::Generator) -> Option<u128> {
    match g.generate() {
        Ok(u) => Some(u.0),
        Err(_) => None,
    }
}

/// The id handed out after `last` when the source drew `drawn`: the drawn
/// value when there is one and it is greater than `last`, otherwise none.
pub fn accept_id(last: u128, drawn: Option<u128>) -> (r: Option<u128>)
    ensures
        r == (match drawn {
            Some(v) => if last < v {
                Some(v)
            } else {
                None
            },
            None => None,
        }),
{
    match drawn {
        Some(v) => {
            if last < v {
                Some(v)
            } else {
                None
            }
        },
        None => None,
    }
}

/// A source of unique, time-ordered report ids. Each id it hands out is
/// strictly greater than every one before it.
pub struct IdGenerator {
    source: ulid::Generator,
    last: u128,
}

impl View for IdGenerator {
    type V = u128;

    /// The last id handed out, or zero before the first.
    closed spec fn view(&self) -> u128 {
        self.last
    }
}

impl IdGenerator {
    /// A generator that has handed out no id yet.
    pub fn new() -> (r: IdGenerator)
        ensures
            r@ == 0,
    {
        IdGenerator { source: ulid_generator(), last: 0 }
    }

    /// The next id as a number: strictly greater than the last one handed out.
    /// It is the value the time and randomness source draws, when that is
    /// greater than the last id; otherwise there is none and the generator
    /// stays as it was.
    pub fn next_value(&mut self) -> (r: Option<u128>)
        ensures
            match r {
                Some(v) => old(self)@ < v && final(self)@ == v,
                None => final(self)@ == old(self)@,
            },
    {
        let drawn = ulid_generate(&mut self.source);
        let r = accept_id(self.last, drawn);
        if let Some(v) = r {
            self.last = v;
        }
        r
    }

    /// The next id as text, with the same guarantees as `next_value`.
    pub fn next_id(&mut self) -> (r: Option<String>)
        ensures
            match r {
                Some(s) => old(self)@ < final(self)@ && s@ == id_text(final(self)@),
                None => final(self)@ == old(self)@,
            },
    {
        match self.next_value() {
            Some(v) => Some(id_text_of(v)),
            None => None,
        }
    }
}

} // verus!
