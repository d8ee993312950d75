//! Unique identifiers and their text forms.
//!
//! An identifier is a 128-bit value. Its text is 32 hexadecimal digits, most
//! significant first, written in one of three forms: the digits alone
//! (simple); the digits in groups of 8, 4, 4, 4 and 12 with a hyphen between
//! groups (hyphenated); or the hyphenated form behind `urn:uuid:`. Reading
//! accepts all three and either case of the digits; writing gives the
//! hyphenated form in lower case, which is the canonical text.

use crate::error::{ErrorKind, FError};
use vstd::arithmetic::div_mod::{lemma_breakdown, lemma_fundamental_div_mod_converse};
use vstd::prelude::*;

verus! {

/// The value of a hexadecimal digit of either case, and -1 for any other
/// character.
pub open spec fn hex_value(c: char) -> int {
    if '0' <= c && c <= '9' {
        c as int - '0' as int
    } else if 'a' <= c && c <= 'f' {
        c as int - 'a' as int + 10
    } else if 'A' <= c && c <= 'F' {
        c as int - 'A' as int + 10
    } else {
        -1
    }
}

pub open spec fn is_hex_digit(c: char) -> bool {
    hex_value(c) >= 0
}

pub open spec fn is_lower_hex_digit(c: char) -> bool {
    ('0' <= c && c <= '9') || ('a' <= c && c <= 'f')
}

/// The lower-case digit that stands for `n`, for `n` below 16.
pub open spec fn lower_hex_digit(n: int) -> char {
    if n < 10 {
        ('0' as int + n) as char
    } else {
        ('a' as int + n - 10) as char
    }
}

/// The number that a row of hexadecimal digits writes, most significant
/// digit first.
pub open spec fn digits_value(ds: Seq<char>) -> nat
    decreases ds.len(),
{
    if ds.len() == 0 {
        0
    } else {
        (digits_value(ds.drop_last()) * 16 + hex_value(ds.last())) as nat
    }
}

/// The `n` lowest hexadecimal digits of `v` in lower case, most significant
/// first.
pub open spec fn digits_text(v: nat, n: nat) -> Seq<char>
    decreases n,
{
    if n == 0 {
        Seq::empty()
    } else {
        digits_text(v / 16, (n - 1) as nat).push(lower_hex_digit((v % 16) as int))
    }
}

pub open spec fn pow16(n: nat) -> nat
    decreases n,
{
    if n == 0 {
        1
    } else {
        16 * pow16((n - 1) as nat)
    }
}

pub open spec fn all_hex(ds: Seq<char>) -> bool {
    forall|i: int| 0 <= i < ds.len() ==> is_hex_digit(#[trigger] ds[i])
}

pub open spec fn all_lower_hex(ds: Seq<char>) -> bool {
    forall|i: int| 0 <= i < ds.len() ==> is_lower_hex_digit(#[trigger] ds[i])
}

/// The places of the four hyphens in a hyphenated text.
pub open spec fn is_hyphen_position(p: int) -> bool {
    p == 8 || p == 13 || p == 18 || p == 23
}

/// Which of the 32 digits stands at place `p` of a hyphenated text.
pub open spec fn digit_index(p: int) -> int {
    if p < 8 {
        p
    } else if p < 13 {
        p - 1
    } else if p < 18 {
        p - 2
    } else if p < 23 {
        p - 3
    } else {
        p - 4
    }
}

/// The place of digit `k` in a hyphenated text.
pub open spec fn digit_position(k: int) -> int {
    if k < 8 {
        k
    } else if k < 12 {
        k + 1
    } else if k < 16 {
        k + 2
    } else if k < 20 {
        k + 3
    } else {
        k + 4
    }
}

/// 32 digits set out in groups of 8, 4, 4, 4 and 12 with hyphens between.
pub open spec fn hyphenate(ds: Seq<char>) -> Seq<char> {
    Seq::new(
        36,
        |p: int|
            if is_hyphen_position(p) {
                '-'
            } else {
                ds[digit_index(p)]
            },
    )
}

/// The 32 digits of a hyphenated text.
pub open spec fn hyphenated_digits(s: Seq<char>) -> Seq<char> {
    Seq::new(32, |k: int| s[digit_position(k)])
}

pub open spec fn is_simple(s: Seq<char>) -> bool {
    s.len() == 32 && all_hex(s)
}

pub open spec fn is_hyphenated(s: Seq<char>) -> bool {
    &&& s.len() == 36
    &&& forall|p: int|
        0 <= p < 36 ==> if is_hyphen_position(p) {
            #[trigger] s[p] == '-'
        } else {
            is_hex_digit(s[p])
        }
}

pub open spec fn urn_prefix() -> Seq<char> {
    seq!['u', 'r', 'n', ':', 'u', 'u', 'i', 'd', ':']
}

pub open spec fn is_urn(s: Seq<char>) -> bool {
    &&& s.len() == 45
    &&& s.subrange(0, 9) == urn_prefix()
    &&& is_hyphenated(s.subrange(9, 45))
}

/// The texts that are read as an identifier.
pub open spec fn is_well_formed(s: Seq<char>) -> bool {
    is_simple(s) || is_hyphenated(s) || is_urn(s)
}

/// The texts that writing produces: hyphenated, digits in lower case.
pub open spec fn is_canonical(s: Seq<char>) -> bool {
    &&& s.len() == 36
    &&& forall|p: int|
        0 <= p < 36 ==> if is_hyphen_position(p) {
            #[trigger] s[p] == '-'
        } else {
            is_lower_hex_digit(s[p])
        }
}

/// The 32 digits of a well-formed text.
pub open spec fn text_digits(s: Seq<char>) -> Seq<char> {
    if s.len() == 32 {
        s
    } else if s.len() == 36 {
        hyphenated_digits(s)
    } else {
        hyphenated_digits(s.subrange(9, 45))
    }
}

/// The value that a well-formed text stands for.
pub open spec fn text_value(s: Seq<char>) -> nat {
    digits_value(text_digits(s))
}

/// The canonical text of a value.
pub open spec fn canonical_text(v: u128) -> Seq<char> {
    hyphenate(digits_text(v as nat, 32))
}

/// The message with which `uuid::Uuid::parse_str` turns down a text that is
/// not well formed.
pub uninterp spec fn uuid_parse_error(s: Seq<char>) -> Seq<char>;

/// `uuid::Uuid::parse_str`, with the value taken out by `Uuid::as_u128` and
/// the error by its `Display`. The parser accepts exactly the simple, the
/// hyphenated and the `urn:uuid:` form, with digits of either case, and reads
/// the digits as one big-endian number; on every other text it returns an
/// error and does not panic.
#[verifier::external_body]
fn uuid_parse_str(s: &str) -> (r: Result<u128, String>)
    ensures
        match r {
            Ok(v) => is_well_formed(s@) && v as nat == text_value(s@),
            Err(m) => !is_well_formed(s@) && m@ == uuid_parse_error(s@),
        },
{
    match uuid::Uuid::parse_str(s) {
        Ok(u) => Ok(u.as_u128()),
        Err(e) => Err(e.to_string()),
    }
}

/// `Display` of `uuid::Uuid`, on the identifier that `Uuid::from_u128` makes
/// of `v`: the hyphenated form in lower case.
#[verifier::external_body]
fn uuid_to_string(v: u128) -> (s: String)
    ensures
        s@ == canonical_text(v),
{
    uuid::Uuid::from_u128(v).to_string()
}

/// A unique identifier of a descriptor, an instance, a node or a plugin.
#[derive(Clone, Copy, Debug, PartialEq, Eq, Structural, Hash)]
pub struct Identifier {
    pub value: u128,
}

impl Identifier {
    /// The identifier with the given value.
    pub fn from_u128(value: u128) -> (id: Identifier)
        ensures
            id.value == value,
    {
        Identifier { value }
    }

    /// The value of this identifier.
    pub fn as_u128(&self) -> (v: u128)
        ensures
            v == self.value,
    {
        self.value
    }

    /// Reads an identifier. Every well-formed text is read, as the value its
    /// digits write; every other text is malformed input, reported with the
    /// parser's message.
    pub fn parse(text: &str) -> (r: Result<Identifier, FError>)
        ensures
            match r {
                Ok(id) => is_well_formed(text@) && id.value as nat == text_value(text@),
                Err(e) => {
                    &&& !is_well_formed(text@)
                    &&& e.kind == ErrorKind::MalformedInput
                    &&& e.message@ == uuid_parse_error(text@)
                },
            },
    {
        match uuid_parse_str(text) {
            Ok(value) => Ok(Identifier { value }),
            Err(message) => Err(FError::new(ErrorKind::MalformedInput, message)),
        }
    }

    /// Writes the identifier in its canonical text.
    pub fn to_text(&self) -> (s: String)
        ensures
            s@ == canonical_text(self.value),
    {
        uuid_to_string(self.value)
    }

    /// Reads an identifier that may be left out. A text that is given is
    /// read as [`Identifier::parse`] reads it.
    pub fn parse_optional(text: Option<&str>) -> (r: Result<Option<Identifier>, FError>)
        ensures
            match r {
                Ok(None) => text is None,
                Ok(Some(id)) => {
                    &&& text matches Some(given)
                    &&& is_well_formed(given@)
                    &&& id.value as nat == text_value(given@)
                },
                Err(e) => {
                    &&& text matches Some(given)
                    &&& !is_well_formed(given@)
                    &&& e.kind == ErrorKind::MalformedInput
                    &&& e.message@ == uuid_parse_error(given@)
                },
            },
    {
        match text {
            Some(given) => Ok(Some(Identifier::parse(given)?)),
            None => Ok(None),
        }
    }

    /// Reads two identifiers, the first first. The first text that is
    /// malformed is reported with the parser's message for it.
    pub fn parse_pair(first: &str, second: &str) -> (r: Result<(Identifier, Identifier), FError>)
        ensures
            match r {
                Ok((a, b)) => {
                    &&& is_well_formed(first@) && a.value as nat == text_value(first@)
                    &&& is_well_formed(second@) && b.value as nat == text_value(second@)
                },
                Err(e) => {
                    &&& e.kind == ErrorKind::MalformedInput
                    &&& if !is_well_formed(first@) {
                        e.message@ == uuid_parse_error(first@)
                    } else {
                        !is_well_formed(second@) && e.message@ == uuid_parse_error(second@)
                    }
                },
            },
    {
        let a = Identifier::parse(first)?;
        let b = Identifier::parse(second)?;
        Ok((a, b))
    }

    /// Reads three identifiers in their order. The first text that is
    /// malformed is reported with the parser's message for it.
    pub fn parse_triple(first: &str, second: &str, third: &str) -> (r: Result<
        (Identifier, Identifier, Identifier),
        FError,
    >)
        ensures
            match r {
                Ok((a, b, c)) => {
                    &&& is_well_formed(first@) && a.value as nat == text_value(first@)
                    &&& is_well_formed(second@) && b.value as nat == text_value(second@)
                    &&& is_well_formed(third@) && c.value as nat == text_value(third@)
                },
                Err(e) => {
                    &&& e.kind == ErrorKind::MalformedInput
                    &&& if !is_well_formed(first@) {
                        e.message@ == uuid_parse_error(first@)
                    } else if !is_well_formed(second@) {
                        e.message@ == uuid_parse_error(second@)
                    } else {
                        !is_well_formed(third@) && e.message@ == uuid_parse_error(third@)
                    }
                },
            },
    {
        let a = Identifier::parse(first)?;
        let b = Identifier::parse(second)?;
        let c = Identifier::parse(third)?;
        Ok((a, b, c))
    }
}

proof fn lemma_pow16_32()
    ensures
        pow16(32) == 0x1_0000_0000_0000_0000_0000_0000_0000_0000,
{
    reveal_with_fuel(pow16, 33);
}

proof fn lemma_pow16_positive(n: nat)
    ensures
        pow16(n) > 0,
    decreases n,
{
    if n > 0 {
        lemma_pow16_positive((n - 1) as nat);
    }
}

/// A row of `n` hexadecimal digits writes a number below 16 to the `n`.
proof fn lemma_digits_value_bound(ds: Seq<char>)
    requires
        all_hex(ds),
    ensures
        digits_value(ds) < pow16(ds.len()),
    decreases ds.len(),
{
    if ds.len() > 0 {
        let init = ds.drop_last();
        assert(all_hex(init)) by {
            assert forall|i: int| 0 <= i < init.len() implies is_hex_digit(#[trigger] init[i]) by {
                assert(init[i] == ds[i]);
            }
        }
        lemma_digits_value_bound(init);
        assert(is_hex_digit(ds[ds.len() - 1]));
        assert(hex_value(ds.last()) < 16);
    }
}

/// Writing `n` digits of `v` and reading them back gives `v` modulo 16 to
/// the `n`; what is written is `n` digits in lower case.
proof fn lemma_value_of_digits_text(v: nat, n: nat)
    ensures
        digits_text(v, n).len() == n,
        all_lower_hex(digits_text(v, n)),
        digits_value(digits_text(v, n)) == v % pow16(n),
    decreases n,
{
    if n > 0 {
        let m = (n - 1) as nat;
        let init = digits_text(v / 16, m);
        let d = lower_hex_digit((v % 16) as int);
        let ds = digits_text(v, n);
        lemma_value_of_digits_text(v / 16, m);
        lemma_pow16_positive(m);
        assert(ds == init.push(d));
        assert(ds.drop_last() =~= init);
        assert(ds.last() == d);
        assert(is_lower_hex_digit(d) && hex_value(d) == v % 16);
        assert(all_lower_hex(ds)) by {
            assert forall|i: int| 0 <= i < ds.len() implies is_lower_hex_digit(#[trigger] ds[i]) by {
                if i < init.len() {
                    assert(ds[i] == init[i]);
                }
            }
        }
        lemma_breakdown(v as int, 16, pow16(m) as int);
    }
}

/// Reading `n` lower-case digits and writing the value back with `n` digits
/// gives the same digits.
proof fn lemma_digits_text_of_value(ds: Seq<char>)
    requires
        all_lower_hex(ds),
    ensures
        digits_text(digits_value(ds), ds.len()) == ds,
    decreases ds.len(),
{
    if ds.len() > 0 {
        let init = ds.drop_last();
        let last = ds.last();
        assert(all_lower_hex(init)) by {
            assert forall|i: int| 0 <= i < init.len() implies is_lower_hex_digit(
                #[trigger] init[i],
            ) by {
                assert(init[i] == ds[i]);
            }
        }
        lemma_digits_text_of_value(init);
        assert(is_lower_hex_digit(ds[ds.len() - 1]));
        let h = hex_value(last);
        let v = digits_value(ds);
        assert(v == digits_value(init) * 16 + h);
        lemma_fundamental_div_mod_converse(v as int, 16, digits_value(init) as int, h);
        assert(lower_hex_digit(h) == last);
        assert(digits_text(v, ds.len()) == init.push(last));
        assert(init.push(last) =~= ds);
    } else {
        assert(ds =~= Seq::<char>::empty());
    }
}

/// Writing a value and reading the text back gives the value: the canonical
/// text of every value is canonical, hence well formed and read, and stands
/// for that value.
pub proof fn law_text_round_trip(v: u128)
    ensures
        is_canonical(canonical_text(v)),
        is_well_formed(canonical_text(v)),
        text_value(canonical_text(v)) == v,
{
    let ds = digits_text(v as nat, 32);
    let s = canonical_text(v);
    lemma_value_of_digits_text(v as nat, 32);
    lemma_pow16_32();
    assert forall|p: int| 0 <= p < 36 implies if is_hyphen_position(p) {
        #[trigger] s[p] == '-'
    } else {
        is_lower_hex_digit(s[p])
    } by {
        if !is_hyphen_position(p) {
            assert(is_lower_hex_digit(ds[digit_index(p)]));
        }
    }
    assert(is_hyphenated(s)) by {
        assert forall|p: int| 0 <= p < 36 implies if is_hyphen_position(p) {
            #[trigger] s[p] == '-'
        } else {
            is_hex_digit(s[p])
        } by {
            if !is_hyphen_position(p) {
                assert(is_lower_hex_digit(s[p]));
            }
        }
    }
    assert(hyphenated_digits(s) =~= ds);
}

/// A canonical text is the canonical text of the value it stands for: reading
/// it and writing the value gives the text back, letter for letter.
pub proof fn law_canonical_text_is_kept(s: Seq<char>)
    requires
        is_canonical(s),
    ensures
        text_value(s) <= u128::MAX,
        canonical_text(text_value(s) as u128) == s,
{
    let ds = hyphenated_digits(s);
    assert(all_lower_hex(ds)) by {
        assert forall|k: int| 0 <= k < ds.len() implies is_lower_hex_digit(#[trigger] ds[k]) by {
            let p = digit_position(k);
            assert(!is_hyphen_position(p));
            assert(is_lower_hex_digit(s[p]));
        }
    }
    assert(all_hex(ds)) by {
        assert forall|k: int| 0 <= k < ds.len() implies is_hex_digit(#[trigger] ds[k]) by {
            assert(is_lower_hex_digit(ds[k]));
        }
    }
    lemma_digits_value_bound(ds);
    lemma_pow16_32();
    lemma_digits_text_of_value(ds);
    let t = canonical_text(text_value(s) as u128);
    assert forall|p: int| 0 <= p < 36 implies t[p] == s[p] by {
        if is_hyphen_position(p) {
            assert(s[p] == '-');
        } else {
            assert(digit_position(digit_index(p)) == p);
        }
    }
    assert(t =~= s);
}

/// Every well-formed text stands for a value of 128 bits, and the canonical
/// text of that value stands for the same value: an identifier that was read
/// is found again under what is written for it.
pub proof fn law_well_formed_round_trip(s: Seq<char>)
    requires
        is_well_formed(s),
    ensures
        text_value(s) <= u128::MAX,
        is_well_formed(canonical_text(text_value(s) as u128)),
        text_value(canonical_text(text_value(s) as u128)) == text_value(s),
{
    let ds = text_digits(s);
    assert(ds.len() == 32 && all_hex(ds)) by {
        if s.len() == 32 {
        } else if s.len() == 36 {
            assert forall|k: int| 0 <= k < ds.len() implies is_hex_digit(#[trigger] ds[k]) by {
                let p = digit_position(k);
                assert(!is_hyphen_position(p));
                assert(is_hex_digit(s[p]));
            }
        } else {
            let h = s.subrange(9, 45);
            assert forall|k: int| 0 <= k < ds.len() implies is_hex_digit(#[trigger] ds[k]) by {
                let p = digit_position(k);
                assert(!is_hyphen_position(p));
                assert(is_hex_digit(h[p]));
            }
        }
    }
    lemma_digits_value_bound(ds);
    lemma_pow16_32();
    law_text_round_trip(text_value(s) as u128);
}

} // verus!
