//! Identifiers: 128-bit UUID values, their canonical text, parsing and
//! generation (through the `uuid` crate).

use vstd::prelude::*;
use crate::text::{split_spec, join_spec, has_char, lemma_split_concat, lemma_split_without_sep};

verus! {

/// Lower-case hexadecimal digit for `n` in `0..16`.
pub open spec fn hex_digit(n: int) -> char {
    if n == 0 { '0' }
    else if n == 1 { '1' }
    else if n == 2 { '2' }
    else if n == 3 { '3' }
    else if n == 4 { '4' }
    else if n == 5 { '5' }
    else if n == 6 { '6' }
    else if n == 7 { '7' }
    else if n == 8 { '8' }
    else if n == 9 { '9' }
    else if n == 10 { 'a' }
    else if n == 11 { 'b' }
    else if n == 12 { 'c' }
    else if n == 13 { 'd' }
    else if n == 14 { 'e' }
    else { 'f' }
}

pub open spec fn pow16(e: nat) -> int
    decreases e,
{
    if e == 0 { 1 } else { 16 * pow16((e - 1) as nat) }
}

/// The `k`-th hexadecimal digit of `v`, counting from the most significant one.
pub open spec fn nibble(v: u128, k: int) -> int {
    (v as int / pow16((31 - k) as nat)) % 16
}

/// Positions of the four hyphens in the canonical text of an identifier.
pub open spec fn is_hyphen_position(i: int) -> bool {
    i == 8 || i == 13 || i == 18 || i == 23
}

pub open spec fn hyphens_before(i: int) -> int {
    if i < 8 { 0 } else if i < 13 { 1 } else if i < 18 { 2 } else if i < 23 { 3 } else { 4 }
}

/// Canonical (hyphenated, lower-case) text of an identifier, such as
/// `550e8400-e29b-41d4-a716-446655440000`: its 32 hexadecimal digits from the
/// most significant one, in groups of 8, 4, 4, 4 and 12 joined by hyphens.
pub open spec fn uuid_text(v: u128) -> Seq<char> {
    Seq::new(
        36,
        |i: int|
            if is_hyphen_position(i) {
                '-'
            } else {
                hex_digit(nibble(v, i - hyphens_before(i)))
            },
    )
}

/// The five hexadecimal groups of the canonical text.
pub open spec fn uuid_groups(v: u128) -> Seq<Seq<char>> {
    let t = uuid_text(v);
    seq![
        t.subrange(0, 8),
        t.subrange(9, 13),
        t.subrange(14, 18),
        t.subrange(19, 23),
        t.subrange(24, 36),
    ]
}

/// Whether `v` has the shape of a random (version 4, RFC 4122 variant) identifier.
pub open spec fn is_random_uuid(v: u128) -> bool {
    nibble(v, 12) == 4 && 8 <= nibble(v, 16) <= 11
}

/// What `uuid::Uuid::parse_str` gives for a text: the identifier's value, or
/// `None` where the text is refused.
pub uninterp spec fn uuid_parse_result(text: Seq<char>) -> Option<u128>;

/// Parses an identifier with `uuid::Uuid::parse_str`. The result is named by
/// `uuid_parse_result`; of it the contract states the one fact the crate's
/// parser shows plainly: the canonical text of a value parses back to it.
#[verifier::external_body]
pub(crate) fn parse_uuid(text: &str) -> (r: Option<u128>)
    ensures
        r == uuid_parse_result(text@),
        forall|v: u128| text@ == uuid_text(v) ==> r == Some(v),
{
    match uuid::Uuid::parse_str(text) {
        Ok(id) => Some(id.as_u128()),
        Err(_) => None,
    }
}

/// Renders an identifier through `uuid::Uuid`'s `Display`, which writes the
/// hyphenated lower-case form: the contract claims exactly `uuid_text`.
#[verifier::external_body]
pub(crate) fn uuid_to_string(v: u128) -> (r: String)
    ensures
        r@ == uuid_text(v),
{
    uuid::Uuid::from_u128(v).to_string()
}

/// A fresh random identifier from `uuid::Uuid::new_v4`. The value is left
/// open: only its version and variant digits, which the crate fixes by masking,
/// are stated.
#[verifier::external_body]
pub(crate) fn new_uuid_v4() -> (r: u128)
    ensures
        is_random_uuid(r),
{
    uuid::Uuid::new_v4().as_u128()
}

/// The canonical text of an identifier.
pub fn id_text(id: u128) -> (r: String)
    ensures
        r@ == uuid_text(id),
{
    uuid_to_string(id)
}

/// A hexadecimal digit is never a hyphen.
pub proof fn lemma_hex_digit_not_hyphen(n: int)
    ensures
        hex_digit(n) != '-',
{
}

/// The groups of the canonical text hold no hyphen, and splitting the text on
/// hyphens gives back exactly its groups.
pub proof fn lemma_uuid_text_split(v: u128)
    ensures
        split_spec(uuid_text(v), '-') == uuid_groups(v),
        join_spec(uuid_groups(v), '-') == uuid_text(v),
        uuid_text(v).len() == 36,
{
    let t = uuid_text(v);
    let g = uuid_groups(v);
    assert forall|k: int| 0 <= k < 5 implies !has_char(#[trigger] g[k], '-') by {
        if has_char(g[k], '-') {
            let i = choose|i: int| 0 <= i < g[k].len() && g[k][i] == '-';
            lemma_hex_digit_not_hyphen(nibble(v, 0));
            if k == 0 {
                assert(t[i] == '-');
                lemma_hex_digit_not_hyphen(nibble(v, i - hyphens_before(i)));
            } else if k == 1 {
                assert(t[i + 9] == '-');
                lemma_hex_digit_not_hyphen(nibble(v, i + 9 - hyphens_before(i + 9)));
            } else if k == 2 {
                assert(t[i + 14] == '-');
                lemma_hex_digit_not_hyphen(nibble(v, i + 14 - hyphens_before(i + 14)));
            } else if k == 3 {
                assert(t[i + 19] == '-');
                lemma_hex_digit_not_hyphen(nibble(v, i + 19 - hyphens_before(i + 19)));
            } else {
                assert(t[i + 24] == '-');
                lemma_hex_digit_not_hyphen(nibble(v, i + 24 - hyphens_before(i + 24)));
            }
        }
    }
    let g0 = g[0];
    let g1 = g[1];
    let g2 = g[2];
    let g3 = g[3];
    let g4 = g[4];
    assert(!has_char(g0, '-'));
    assert(!has_char(g1, '-'));
    assert(!has_char(g2, '-'));
    assert(!has_char(g3, '-'));
    assert(!has_char(g4, '-'));
    let r3 = g3.push('-') + g4;
    let r2 = g2.push('-') + r3;
    let r1 = g1.push('-') + r2;
    let r0 = g0.push('-') + r1;
    assert(r0 =~= t);
    lemma_split_without_sep(g0, '-');
    lemma_split_without_sep(g1, '-');
    lemma_split_without_sep(g2, '-');
    lemma_split_without_sep(g3, '-');
    lemma_split_without_sep(g4, '-');
    lemma_split_concat(g3, g4, '-');
    lemma_split_concat(g2, r3, '-');
    lemma_split_concat(g1, r2, '-');
    lemma_split_concat(g0, r1, '-');
    assert(split_spec(t, '-') =~= g);
    let j1 = join_spec(g.subrange(0, 1), '-');
    let j2 = join_spec(g.subrange(0, 2), '-');
    let j3 = join_spec(g.subrange(0, 3), '-');
    let j4 = join_spec(g.subrange(0, 4), '-');
    assert(g.subrange(0, 2).drop_last() =~= g.subrange(0, 1));
    assert(g.subrange(0, 3).drop_last() =~= g.subrange(0, 2));
    assert(g.subrange(0, 4).drop_last() =~= g.subrange(0, 3));
    assert(g.drop_last() =~= g.subrange(0, 4));
    assert(j1 == g0);
    assert(j2 == g0.push('-') + g1);
    assert(j3 == (g0.push('-') + g1).push('-') + g2);
    assert(j4 == ((g0.push('-') + g1).push('-') + g2).push('-') + g3);
    assert(join_spec(g, '-') == (((g0.push('-') + g1).push('-') + g2).push('-') + g3).push('-')
        + g4);
    assert(join_spec(g, '-') =~= t);
}

} // verus!
