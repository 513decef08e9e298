//! How a connection key is written down: three components, each with a text
//! of its own, joined by one separator into the string that addresses a
//! connection everywhere.

use vstd::prelude::*;
use vstd::arithmetic::div_mod::lemma_div_denominator;
use vstd::arithmetic::power::{lemma_pow_adds, lemma_pow_positive, pow};

verus! {

/// The `k`-th hexadecimal digit of `bits`, counted from the most significant
/// one, for `0 <= k < 32`.
pub open spec fn hex_digit(bits: u128, k: int) -> int {
    (bits as int / pow(16, (31 - k) as nat)) % 16
}

/// How many hyphens stand before position `i` of a hyphenated token.
pub open spec fn hyphens_before(i: int) -> int {
    if i < 8 {
        0
    } else if i < 13 {
        1
    } else if i < 18 {
        2
    } else if i < 23 {
        3
    } else {
        4
    }
}

/// The character at position `i` of the hyphenated text of `bits`.
pub open spec fn hyphenated_char(bits: u128, i: int) -> char {
    if i == 8 || i == 13 || i == 18 || i == 23 {
        '-'
    } else {
        "0123456789abcdef"@[hex_digit(bits, i - hyphens_before(i))]
    }
}

/// The text of an identity token: its 32 hexadecimal digits in lower case,
/// most significant first, in groups of 8, 4, 4, 4 and 12 with a hyphen
/// between two groups.
pub open spec fn hyphenated(bits: u128) -> Seq<char> {
    Seq::new(36, |i: int| hyphenated_char(bits, i))
}

/// The text of a component that may be missing: its own text, or the
/// placeholder `NA`.
pub open spec fn or_placeholder(text: Option<Seq<char>>) -> Seq<char> {
    match text {
        Some(text) => text,
        None => "NA"@,
    }
}

/// The text of an identity token that may be missing.
pub open spec fn token_text(token: Option<u128>) -> Seq<char> {
    match token {
        Some(bits) => hyphenated(bits),
        None => "NA"@,
    }
}

/// The rendered key of the three component texts: the texts in the order
/// user, business, device, with `#` between two of them.
pub open spec fn rendered(user: Seq<char>, business: Seq<char>, device: Seq<char>) -> Seq<char> {
    user + "#"@ + business + "#"@ + device
}

/// Writes an identity token down. This is `Uuid::from_u128` of the `uuid`
/// crate followed by the `to_string` that its `Display` impl gives: the
/// hyphenated form in lower case, 36 characters long.
#[verifier::external_body]
fn uuid_text(bits: u128) -> (text: String)
    ensures
        text@ == hyphenated(bits),
{
    uuid::Uuid::from_u128(bits).to_string()
}

/// The text of an identity token that may be missing.
pub fn render_token(token: Option<u128>) -> (text: String)
    ensures
        text@ == token_text(token),
{
    match token {
        Some(bits) => uuid_text(bits),
        None => "NA".to_owned(),
    }
}

/// Joins three component texts into a rendered key.
pub fn render(user: String, business: &str, device: &str) -> (key: String)
    ensures
        key@ == rendered(user@, business@, device@),
{
    let mut key = user;
    key.append("#");
    key.append(business);
    key.append("#");
    key.append(device);
    key
}

/// The key of a connection of which nothing is known is `NA#NA#NA`.
pub proof fn lemma_key_of_nothing()
    ensures
        rendered(token_text(None), token_text(None), or_placeholder(None)) == "NA#NA#NA"@,
{
    reveal_strlit("NA");
    reveal_strlit("#");
    reveal_strlit("NA#NA#NA");
}

/// A number below the `m`-th power of 16 is told by its `m` lowest
/// hexadecimal digits.
proof fn lemma_digits_determine(x: int, y: int, m: nat)
    requires
        0 <= x < pow(16, m),
        0 <= y < pow(16, m),
        forall|j: nat| j < m ==> (x / #[trigger] pow(16, j)) % 16 == (y / pow(16, j)) % 16,
    ensures
        x == y,
    decreases m,
{
    reveal(pow);
    assert(pow(16, 0) == 1);
    if m > 0 {
        let rest = (m - 1) as nat;
        assert forall|j: nat| j < rest implies ((x / 16) / #[trigger] pow(16, j)) % 16 == ((y
            / 16) / pow(16, j)) % 16 by {
            lemma_pow_positive(16, j);
            lemma_div_denominator(x, 16, pow(16, j));
            lemma_div_denominator(y, 16, pow(16, j));
            assert(pow(16, j + 1) == 16 * pow(16, j));
        }
        lemma_digits_determine(x / 16, y / 16, rest);
    }
}

/// There are as many tokens as numbers of 32 hexadecimal digits.
proof fn lemma_token_range()
    ensures
        pow(16, 32) == 0x1_0000_0000_0000_0000_0000_0000_0000_0000,
{
    assert(pow(16, 4) == 0x1_0000) by {
        reveal_with_fuel(pow, 5);
    }
    lemma_pow_adds(16, 4, 4);
    assert(pow(16, 8) == 0x1_0000_0000);
    lemma_pow_adds(16, 8, 8);
    assert(pow(16, 16) == 0x1_0000_0000_0000_0000);
    lemma_pow_adds(16, 16, 16);
}

/// The sixteen hexadecimal digits have sixteen different characters, and
/// none of them is the separator.
proof fn lemma_digit_chars(a: int, b: int)
    requires
        0 <= a < 16,
        0 <= b < 16,
    ensures
        "0123456789abcdef"@[a] != '#',
        a != b ==> "0123456789abcdef"@[a] != "0123456789abcdef"@[b],
{
    reveal_strlit("0123456789abcdef");
}

/// Where the `k`-th digit of a token stands in its text.
spec fn digit_position(k: int) -> int {
    if k < 8 {
        k
    } else if k < 12 {
        k + 1
    } else if k < 16 {
        k + 2
    } else if k < 20 {
        k + 3
    } else {
        k + 4
    }
}

/// The text of a token is 36 characters long and holds no separator.
pub proof fn lemma_token_text_shape(bits: u128)
    ensures
        hyphenated(bits).len() == 36,
        forall|i: int| 0 <= i < 36 ==> #[trigger] hyphenated(bits)[i] != '#',
{
    assert forall|i: int| 0 <= i < 36 implies #[trigger] hyphenated(bits)[i] != '#' by {
        lemma_digit_chars(hex_digit(bits, i - hyphens_before(i)), 0);
    }
}

/// Two tokens with the same text are the same token.
pub proof fn lemma_token_text_is_injective(first: u128, second: u128)
    requires
        hyphenated(first) == hyphenated(second),
    ensures
        first == second,
{
    lemma_token_range();
    assert forall|j: nat| j < 32 implies (first as int / #[trigger] pow(16, j)) % 16 == (
    second as int / pow(16, j)) % 16 by {
        let k = 31 - j;
        let i = digit_position(k);
        assert(hyphenated(first)[i] == hyphenated_char(first, i));
        lemma_digit_chars(hex_digit(first, k), hex_digit(second, k));
    }
    lemma_digits_determine(first as int, second as int, 32);
}

/// Two tokens that may be missing have the same text only if both are
/// missing or both are the same token.
pub proof fn lemma_optional_token_text_is_injective(first: Option<u128>, second: Option<u128>)
    requires
        token_text(first) == token_text(second),
    ensures
        first == second,
{
    reveal_strlit("NA");
    match (first, second) {
        (Some(a), Some(b)) => {
            lemma_token_text_is_injective(a, b);
        },
        (Some(a), None) => {
            lemma_token_text_shape(a);
        },
        (None, Some(b)) => {
            lemma_token_text_shape(b);
        },
        (None, None) => {},
    }
}

/// A rendered key whose first two components hold no separator can be read
/// back: two keys are the same only if their three components are.
pub proof fn lemma_rendered_is_injective(
    user: Seq<char>,
    business: Seq<char>,
    device: Seq<char>,
    other_user: Seq<char>,
    other_business: Seq<char>,
    other_device: Seq<char>,
)
    requires
        rendered(user, business, device) == rendered(other_user, other_business, other_device),
        !user.contains('#'),
        !business.contains('#'),
        !other_user.contains('#'),
        !other_business.contains('#'),
    ensures
        user == other_user,
        business == other_business,
        device == other_device,
{
    reveal_strlit("#");
    let key = rendered(user, business, device);
    let other_key = rendered(other_user, other_business, other_device);
    let n = user.len() as int;
    let m = other_user.len() as int;
    assert(key[n] == '#');
    assert(other_key[m] == '#');
    assert(user =~= key.subrange(0, n));
    let p = business.len() as int;
    let q = other_business.len() as int;
    assert(key[n + 1 + p] == '#');
    assert(other_key[n + 1 + q] == '#');
    assert(business =~= key.subrange(n + 1, n + 1 + p));
    assert(device =~= key.subrange(n + p + 2, key.len() as int));
}

/// The text of a token that may be missing holds no separator.
pub proof fn lemma_token_text_has_no_separator(token: Option<u128>)
    ensures
        !token_text(token).contains('#'),
{
    reveal_strlit("NA");
    if let Some(bits) = token {
        lemma_token_text_shape(bits);
    }
}

/// A key can be read back: two keys are the same only if they were made of
/// the same user, the same business and the same device text.
pub proof fn lemma_key_is_injective(
    user: Option<u128>,
    business: Option<u128>,
    device: Seq<char>,
    other_user: Option<u128>,
    other_business: Option<u128>,
    other_device: Seq<char>,
)
    requires
        rendered(token_text(user), token_text(business), device) == rendered(
            token_text(other_user),
            token_text(other_business),
            other_device,
        ),
    ensures
        user == other_user,
        business == other_business,
        device == other_device,
{
    lemma_token_text_has_no_separator(user);
    lemma_token_text_has_no_separator(business);
    lemma_token_text_has_no_separator(other_user);
    lemma_token_text_has_no_separator(other_business);
    lemma_rendered_is_injective(
        token_text(user),
        token_text(business),
        device,
        token_text(other_user),
        token_text(other_business),
        other_device,
    );
    lemma_optional_token_text_is_injective(user, other_user);
    lemma_optional_token_text_is_injective(business, other_business);
}

} // verus!
