//! Color resolution: the named palette and `#RGB`, `#RRGGBB`, `#RRGGBBAA`
//! hex notation, mapped to RGBA pixels. Alpha is 255 where the notation
//! omits it, and matching of names and hex digits ignores ASCII case.

use vstd::prelude::*;
use vstd::string::StringSliceAdditionalSpecFns;
use vstd::utf8::encode_utf8;

use image::Rgba;

use crate::named_colors::{
    entry_well_formed, lemma_named_color_data_well_formed, named_color_data, named_color_entries,
};

verus! {

#[verifier::external_type_specification]
#[verifier::reject_recursive_types(T)]
pub struct ExRgba<T>(image::Rgba<T>);

// ----------------------------------------------------------------------------
// Hex notation
// ----------------------------------------------------------------------------

pub const ASCII_HASH: u8 = 35;
pub const ASCII_0: u8 = 48;
pub const ASCII_9: u8 = 57;
pub const ASCII_UPPER_A: u8 = 65;
pub const ASCII_UPPER_F: u8 = 70;
pub const ASCII_UPPER_Z: u8 = 90;
pub const ASCII_LOWER_A: u8 = 97;
pub const ASCII_LOWER_F: u8 = 102;

/// The value of an ASCII hex digit, either case.
pub open spec fn hex_value(c: u8) -> Option<u8> {
    if 48 <= c <= 57 {
        Some((c - 48) as u8)
    } else if 65 <= c <= 70 {
        Some((c - 55) as u8)
    } else if 97 <= c <= 102 {
        Some((c - 87) as u8)
    } else {
        None
    }
}

pub open spec fn is_hex_digit(c: u8) -> bool {
    hex_value(c) is Some
}

pub open spec fn digit(c: u8) -> int {
    hex_value(c)->0 as int
}

/// `#` followed by exactly 3, 6 or 8 hex digits.
pub open spec fn is_hex_color(b: Seq<u8>) -> bool {
    &&& b.len() == 4 || b.len() == 7 || b.len() == 9
    &&& b[0] == 35u8
    &&& forall|i: int| 1 <= i < b.len() ==> #[trigger] is_hex_digit(b[i])
}

/// A single digit replicated into both nibbles.
pub open spec fn short_channel(b: Seq<u8>, i: int) -> u8 {
    (digit(b[i]) * 17) as u8
}

/// Two digits, high nibble first.
pub open spec fn pair_channel(b: Seq<u8>, i: int) -> u8 {
    (digit(b[i]) * 16 + digit(b[i + 1])) as u8
}

/// The color that valid hex notation denotes.
pub open spec fn hex_color(b: Seq<u8>) -> Rgba<u8> {
    if b.len() == 4 {
        Rgba([short_channel(b, 1), short_channel(b, 2), short_channel(b, 3), 255])
    } else if b.len() == 7 {
        Rgba([pair_channel(b, 1), pair_channel(b, 3), pair_channel(b, 5), 255])
    } else {
        Rgba([pair_channel(b, 1), pair_channel(b, 3), pair_channel(b, 5), pair_channel(b, 7)])
    }
}

/// Channel `k` of a color: 0 red, 1 green, 2 blue, 3 alpha.
pub open spec fn channel(c: Rgba<u8>, k: int) -> u8 {
    c.0[k]
}

/// Hex notation parsed strictly: the color, or nothing for anything else.
pub open spec fn parse_hex_spec(b: Seq<u8>) -> Option<Rgba<u8>> {
    if is_hex_color(b) {
        Some(hex_color(b))
    } else {
        None
    }
}

/// Parse a single hex digit, returning `None` for any other byte.
fn try_hex_digit(c: u8) -> (r: Option<u8>)
    ensures
        r == hex_value(c),
{
    if ASCII_0 <= c && c <= ASCII_9 {
        Some(c - ASCII_0)
    } else if ASCII_UPPER_A <= c && c <= ASCII_UPPER_F {
        Some(c - ASCII_UPPER_A + 10)
    } else if ASCII_LOWER_A <= c && c <= ASCII_LOWER_F {
        Some(c - ASCII_LOWER_A + 10)
    } else {
        None
    }
}

/// Parse a byte that is known to be a hex digit.
fn hex_digit(c: u8) -> (r: u8)
    requires
        is_hex_digit(c),
    ensures
        r as int == digit(c),
        r < 16,
{
    try_hex_digit(c).unwrap()
}

fn pair_at(b: &[u8], i: usize) -> (r: u8)
    requires
        i + 1 < b@.len(),
        is_hex_digit(b@[i as int]),
        is_hex_digit(b@[i + 1]),
    ensures
        r == pair_channel(b@, i as int),
{
    hex_digit(b[i]) * 16 + hex_digit(b[i + 1])
}

fn hex_bytes(b: &[u8]) -> (r: Rgba<u8>)
    requires
        is_hex_color(b@),
    ensures
        r == hex_color(b@),
{
    let n = b.len();
    assert(is_hex_digit(b@[1]) && is_hex_digit(b@[2]) && is_hex_digit(b@[3]));
    if n == 4 {
        let r = hex_digit(b[1]);
        let g = hex_digit(b[2]);
        let bl = hex_digit(b[3]);
        Rgba([r * 17, g * 17, bl * 17, 0xFF])
    } else if n == 7 {
        assert(is_hex_digit(b@[4]) && is_hex_digit(b@[5]) && is_hex_digit(b@[6]));
        Rgba([pair_at(b, 1), pair_at(b, 3), pair_at(b, 5), 0xFF])
    } else {
        assert(is_hex_digit(b@[4]) && is_hex_digit(b@[5]) && is_hex_digit(b@[6]));
        assert(is_hex_digit(b@[7]) && is_hex_digit(b@[8]));
        Rgba([pair_at(b, 1), pair_at(b, 3), pair_at(b, 5), pair_at(b, 7)])
    }
}

/// Parse hex notation: `#RGB`, `#RRGGBB` or `#RRGGBBAA`, digits in either
/// case. Anything else, including a missing `#`, gives `None`.
pub fn parse_hex(s: &str) -> (r: Option<Rgba<u8>>)
    ensures
        r == parse_hex_spec(s.spec_bytes()),
{
    let b = s.as_bytes();
    let n = b.len();
    if n == 0 || b[0] != ASCII_HASH {
        return None;
    }
    if n != 4 && n != 7 && n != 9 {
        return None;
    }
    let mut i: usize = 1;
    while i < n
        invariant
            b@ == s.spec_bytes(),
            n == b@.len(),
            1 <= i <= n,
            forall|j: int| 1 <= j < i ==> #[trigger] is_hex_digit(b@[j]),
        decreases n - i,
    {
        if try_hex_digit(b[i]).is_none() {
            assert(!is_hex_digit(b@[i as int]));
            assert(!is_hex_color(b@));
            return None;
        }
        i += 1;
    }
    Some(hex_bytes(b))
}

/// Parse hex notation that is known to be valid: `#RGB`, `#RRGGBB` or
/// `#RRGGBBAA`. Meant for fixed, trusted literals.
pub fn hex(s: &str) -> (r: Rgba<u8>)
    requires
        is_hex_color(s.spec_bytes()),
    ensures
        r == hex_color(s.spec_bytes()),
{
    hex_bytes(s.as_bytes())
}

// ----------------------------------------------------------------------------
// Named colors and resolution
// ----------------------------------------------------------------------------

/// ASCII lowercase of one byte; every other byte is kept.
pub open spec fn ascii_lower(c: u8) -> u8 {
    if ASCII_UPPER_A <= c <= ASCII_UPPER_Z {
        (c + 32) as u8
    } else {
        c
    }
}

/// ASCII lowercase of a byte string.
pub open spec fn lower(b: Seq<u8>) -> Seq<u8> {
    b.map_values(|c: u8| ascii_lower(c))
}

/// `i` is the first entry of the vocabulary whose name is `name`.
pub open spec fn is_first_named(name: Seq<u8>, i: int) -> bool {
    &&& 0 <= i < named_color_data().len()
    &&& named_color_data()[i].0.spec_bytes() == name
    &&& forall|j: int|
        0 <= j < i ==> #[trigger] named_color_data()[j].0.spec_bytes() != name
}

/// The color that the vocabulary gives to `name`, matched exactly.
pub open spec fn named_color(name: Seq<u8>) -> Option<Rgba<u8>> {
    if exists|i: int| is_first_named(name, i) {
        let i = choose|i: int| is_first_named(name, i);
        Some(hex_color(named_color_data()[i].1.spec_bytes()))
    } else {
        None
    }
}

/// What a color specification resolves to: a named color, matched without
/// regard to ASCII case, else hex notation, else nothing.
pub open spec fn resolve(b: Seq<u8>) -> Option<Rgba<u8>> {
    match named_color(lower(b)) {
        Some(c) => Some(c),
        None => parse_hex_spec(b),
    }
}

fn to_ascii_lower(c: u8) -> (r: u8)
    ensures
        r == ascii_lower(c),
{
    if ASCII_UPPER_A <= c && c <= ASCII_UPPER_Z {
        c + 32
    } else {
        c
    }
}

/// Whether `name` equals the ASCII lowercase of `s`.
fn matches_lowercased(name: &str, s: &str) -> (r: bool)
    ensures
        r == (name.spec_bytes() == lower(s.spec_bytes())),
{
    let nb = name.as_bytes();
    let sb = s.as_bytes();
    if nb.len() != sb.len() {
        return false;
    }
    let mut i: usize = 0;
    while i < nb.len()
        invariant
            nb@ == name.spec_bytes(),
            sb@ == s.spec_bytes(),
            nb@.len() == sb@.len(),
            0 <= i <= nb@.len(),
            forall|j: int| 0 <= j < i ==> nb@[j] == #[trigger] ascii_lower(sb@[j]),
        decreases nb.len() - i,
    {
        if nb[i] != to_ascii_lower(sb[i]) {
            assert(nb@[i as int] != lower(sb@)[i as int]);
            return false;
        }
        i += 1;
    }
    assert(nb@ =~= lower(sb@));
    true
}

/// Parse a color from a string: a named color (e.g. "red", "steelblue",
/// "rebeccapurple") in any ASCII case, else `#RGB`, `#RRGGBB` or
/// `#RRGGBBAA` hex notation. Alpha is 255 unless the notation gives it.
/// Anything else gives `None`.
pub fn lookup(s: &str) -> (r: Option<Rgba<u8>>)
    ensures
        r == resolve(s.spec_bytes()),
{
    let entries = named_color_entries();
    let ghost name = lower(s.spec_bytes());
    let mut i: usize = 0;
    while i < entries.len()
        invariant
            entries@ == named_color_data(),
            0 <= i <= entries@.len(),
            name == lower(s.spec_bytes()),
            forall|j: int|
                0 <= j < i ==> #[trigger] named_color_data()[j].0.spec_bytes() != name,
        decreases entries.len() - i,
    {
        let (label, code) = entries[i];
        if matches_lowercased(label, s) {
            proof {
                assert(is_first_named(name, i as int));
                let k = choose|k: int| is_first_named(name, k);
                assert(k == i as int);
                lemma_named_color_data_well_formed();
                assert(entry_well_formed(named_color_data()[i as int]));
            }
            return Some(hex(code));
        }
        i += 1;
    }
    assert(!exists|k: int| is_first_named(name, k));
    parse_hex(s)
}

// ----------------------------------------------------------------------------
// Labeled colors
// ----------------------------------------------------------------------------

/// What a labeled specification resolves to.
pub open spec fn resolve_entry(e: (String, String)) -> Option<Rgba<u8>> {
    resolve(encode_utf8(e.1@))
}

/// The labeled specifications that resolve, in their order, each with its
/// label and color; the others are left out.
pub open spec fn parsed_colors(entries: Seq<(String, String)>) -> Seq<(Seq<char>, Rgba<u8>)>
    decreases entries.len(),
{
    if entries.len() == 0 {
        Seq::empty()
    } else {
        let rest = parsed_colors(entries.drop_last());
        match resolve_entry(entries.last()) {
            Some(c) => rest.push((entries.last().0@, c)),
            None => rest,
        }
    }
}

/// The labeled specifications that do not resolve, in their order, as
/// (label, specification) text.
pub open spec fn rejected_colors(entries: Seq<(String, String)>) -> Seq<(Seq<char>, Seq<char>)>
    decreases entries.len(),
{
    if entries.len() == 0 {
        Seq::empty()
    } else {
        let rest = rejected_colors(entries.drop_last());
        match resolve_entry(entries.last()) {
            Some(c) => rest,
            None => rest.push((entries.last().0@, entries.last().1@)),
        }
    }
}

/// No two entries carry the same label.
pub open spec fn labels_unique<V>(entries: Seq<(Seq<char>, V)>) -> bool {
    forall|i: int, j: int|
        0 <= i < j < entries.len() ==> #[trigger] entries[i].0 != #[trigger] entries[j].0
}

/// Labeled specifications as (label, specification) text.
pub open spec fn spec_view(v: Seq<(String, String)>) -> Seq<(Seq<char>, Seq<char>)> {
    v.map_values(|e: (String, String)| (e.0@, e.1@))
}

/// Labeled colors as (label, color) values.
pub open spec fn labeled_view(v: Seq<(String, Rgba<u8>)>) -> Seq<(Seq<char>, Rgba<u8>)> {
    v.map_values(|e: (String, Rgba<u8>)| (e.0@, e.1))
}

/// The color of the first entry labeled `key`, or `default`.
pub open spec fn color_or(entries: Seq<(Seq<char>, Rgba<u8>)>, key: Seq<char>, default: Rgba<u8>) -> Rgba<u8>
    decreases entries.len(),
{
    if entries.len() == 0 {
        default
    } else if entries[0].0 == key {
        entries[0].1
    } else {
        color_or(entries.drop_first(), key, default)
    }
}

/// Resolve each labeled color specification. Entries that do not resolve
/// are skipped; the others keep their label and their order.
pub fn parse_colors(colors: &Vec<(String, String)>) -> (r: Vec<(String, Rgba<u8>)>)
    ensures
        labeled_view(r@) == parsed_colors(colors@),
{
    let mut parsed: Vec<(String, Rgba<u8>)> = Vec::new();
    let mut i: usize = 0;
    while i < colors.len()
        invariant
            0 <= i <= colors@.len(),
            labeled_view(parsed@) == parsed_colors(colors@.take(i as int)),
        decreases colors.len() - i,
    {
        let ghost before = parsed@;
        assert(colors@.take(i as int + 1).drop_last() =~= colors@.take(i as int));
        if let Some(rgba) = lookup(colors[i].1.as_str()) {
            parsed.push((colors[i].0.clone(), rgba));
            assert(labeled_view(parsed@) =~= labeled_view(before).push((colors@[i as int].0@, rgba)));
        }
        i += 1;
    }
    assert(colors@.take(colors@.len() as int) =~= colors@);
    parsed
}

/// The labeled specifications that `parse_colors` skips because they do not
/// resolve, each with its label and text, in their order.
pub fn invalid_colors(colors: &Vec<(String, String)>) -> (r: Vec<(String, String)>)
    ensures
        spec_view(r@) == rejected_colors(colors@),
{
    let mut rejected: Vec<(String, String)> = Vec::new();
    let mut i: usize = 0;
    while i < colors.len()
        invariant
            0 <= i <= colors@.len(),
            spec_view(rejected@) == rejected_colors(colors@.take(i as int)),
        decreases colors.len() - i,
    {
        let ghost before = rejected@;
        assert(colors@.take(i as int + 1).drop_last() =~= colors@.take(i as int));
        if lookup(colors[i].1.as_str()).is_none() {
            rejected.push((colors[i].0.clone(), colors[i].1.clone()));
            assert(spec_view(rejected@) =~= spec_view(before).push(
                (colors@[i as int].0@, colors@[i as int].1@),
            ));
        }
        i += 1;
    }
    assert(colors@.take(colors@.len() as int) =~= colors@);
    rejected
}

/// The color labeled `key`, or `default` where there is none. Where
/// several entries carry the label, the first of them gives the color.
pub fn get_color(colors: &Vec<(String, Rgba<u8>)>, key: &str, default: Rgba<u8>) -> (r: Rgba<u8>)
    ensures
        r == color_or(labeled_view(colors@), key@, default),
{
    let wanted = key.to_owned();
    assert(labeled_view(colors@).skip(0) =~= labeled_view(colors@));
    let mut i: usize = 0;
    while i < colors.len()
        invariant
            0 <= i <= colors@.len(),
            wanted@ == key@,
            color_or(labeled_view(colors@), key@, default) == color_or(
                labeled_view(colors@).skip(i as int),
                key@,
                default,
            ),
        decreases colors.len() - i,
    {
        let ghost rest = labeled_view(colors@).skip(i as int);
        assert(rest[0] == (colors@[i as int].0@, colors@[i as int].1));
        if colors[i].0 == wanted {
            return colors[i].1;
        }
        assert(rest.drop_first() =~= labeled_view(colors@).skip(i as int + 1));
        i += 1;
    }
    default
}

// ----------------------------------------------------------------------------
// Laws of resolution
// ----------------------------------------------------------------------------

/// No name of the vocabulary starts with `#`, so input that starts with `#`
/// resolves as hex notation or not at all.
pub proof fn lemma_hash_prefixed_resolves_as_hex(b: Seq<u8>)
    requires
        b.len() > 0,
        b[0] == ASCII_HASH,
    ensures
        resolve(b) == parse_hex_spec(b),
{
    lemma_named_color_data_well_formed();
    let name = lower(b);
    if exists|i: int| is_first_named(name, i) {
        let i = choose|i: int| is_first_named(name, i);
        assert(entry_well_formed(named_color_data()[i]));
        assert(name[0] == ASCII_HASH);
    }
}

/// Each digit of `#RGB` is replicated into both nibbles of its channel, and
/// alpha is 255.
pub proof fn lemma_short_hex_channels(b: Seq<u8>)
    requires
        b.len() == 4,
        b[0] == ASCII_HASH,
        is_hex_digit(b[1]),
        is_hex_digit(b[2]),
        is_hex_digit(b[3]),
    ensures
        resolve(b) is Some,
        channel(resolve(b)->0, 0) as int == digit(b[1]) * 17,
        channel(resolve(b)->0, 1) as int == digit(b[2]) * 17,
        channel(resolve(b)->0, 2) as int == digit(b[3]) * 17,
        channel(resolve(b)->0, 3) == 255,
{
    lemma_hash_prefixed_resolves_as_hex(b);
    assert(is_hex_color(b));
}

/// `#RRGGBB` gives each channel from a pair of digits, high nibble first,
/// with alpha 255; `#RRGGBBAA` takes alpha from the last pair.
pub proof fn lemma_long_hex_channels(b: Seq<u8>)
    requires
        b.len() == 7 || b.len() == 9,
        b[0] == ASCII_HASH,
        forall|i: int| 1 <= i < b.len() ==> #[trigger] is_hex_digit(b[i]),
    ensures
        resolve(b) is Some,
        channel(resolve(b)->0, 0) as int == digit(b[1]) * 16 + digit(b[2]),
        channel(resolve(b)->0, 1) as int == digit(b[3]) * 16 + digit(b[4]),
        channel(resolve(b)->0, 2) as int == digit(b[5]) * 16 + digit(b[6]),
        b.len() == 7 ==> channel(resolve(b)->0, 3) == 255,
        b.len() == 9 ==> channel(resolve(b)->0, 3) as int == digit(b[7]) * 16 + digit(b[8]),
{
    lemma_hash_prefixed_resolves_as_hex(b);
    assert(is_hex_digit(b[1]) && is_hex_digit(b[2]) && is_hex_digit(b[3]));
    assert(is_hex_digit(b[4]) && is_hex_digit(b[5]) && is_hex_digit(b[6]));
    if b.len() == 9 {
        assert(is_hex_digit(b[7]) && is_hex_digit(b[8]));
    }
}

proof fn lemma_hex_value_ignores_case(x: u8, y: u8)
    requires
        ascii_lower(x) == ascii_lower(y),
    ensures
        hex_value(x) == hex_value(y),
        x == ASCII_HASH <==> y == ASCII_HASH,
{
}

/// Resolution ignores ASCII case: two inputs that agree once lowercased
/// resolve alike.
pub proof fn lemma_resolve_ignores_case(b1: Seq<u8>, b2: Seq<u8>)
    requires
        lower(b1) == lower(b2),
    ensures
        resolve(b1) == resolve(b2),
{
    assert(b1.len() == lower(b1).len());
    assert(b2.len() == lower(b2).len());
    assert forall|i: int| 0 <= i < b1.len() implies hex_value(#[trigger] b1[i]) == hex_value(
        b2[i],
    ) && (b1[i] == ASCII_HASH <==> b2[i] == ASCII_HASH) by {
        assert(lower(b1)[i] == lower(b2)[i]);
        assert(lower(b1)[i] == ascii_lower(b1[i]));
        assert(lower(b2)[i] == ascii_lower(b2[i]));
        lemma_hex_value_ignores_case(b1[i], b2[i]);
    }
    if b1.len() > 0 {
        assert(is_hex_color(b1) == is_hex_color(b2)) by {
            if is_hex_color(b1) {
                assert forall|i: int| 1 <= i < b2.len() implies #[trigger] is_hex_digit(b2[i]) by {
                    assert(is_hex_digit(b1[i]));
                }
            }
            if is_hex_color(b2) {
                assert forall|i: int| 1 <= i < b1.len() implies #[trigger] is_hex_digit(b1[i]) by {
                    assert(is_hex_digit(b2[i]));
                }
            }
        }
        if is_hex_color(b1) {
            assert(hex_value(b1[1]) == hex_value(b2[1]));
            assert(hex_value(b1[2]) == hex_value(b2[2]));
            assert(hex_value(b1[3]) == hex_value(b2[3]));
            if b1.len() >= 7 {
                assert(hex_value(b1[4]) == hex_value(b2[4]));
                assert(hex_value(b1[5]) == hex_value(b2[5]));
                assert(hex_value(b1[6]) == hex_value(b2[6]));
            }
            if b1.len() == 9 {
                assert(hex_value(b1[7]) == hex_value(b2[7]));
                assert(hex_value(b1[8]) == hex_value(b2[8]));
            }
            assert(hex_color(b1) == hex_color(b2));
        }
    }
}

/// `#` followed by anything but exactly 3, 6 or 8 hex digits resolves to
/// nothing.
pub proof fn lemma_malformed_hex_unresolved(b: Seq<u8>)
    requires
        b.len() > 0,
        b[0] == ASCII_HASH,
        !(b.len() == 4 || b.len() == 7 || b.len() == 9) || exists|i: int|
            1 <= i < b.len() && !#[trigger] is_hex_digit(b[i]),
    ensures
        resolve(b) is None,
{
    lemma_hash_prefixed_resolves_as_hex(b);
}

/// Hex digits without the leading `#` resolve to nothing.
pub proof fn lemma_bare_hex_digits_unresolved(b: Seq<u8>)
    requires
        b.len() > 0,
        forall|i: int| 0 <= i < b.len() ==> #[trigger] is_hex_digit(b[i]),
    ensures
        resolve(b) is None,
{
    lemma_named_color_data_well_formed();
    let name = lower(b);
    assert(!is_hex_digit(ASCII_HASH));
    assert(!is_hex_color(b));
    if exists|i: int| is_first_named(name, i) {
        let i = choose|i: int| is_first_named(name, i);
        assert(entry_well_formed(named_color_data()[i]));
        let k = choose|k: int|
            0 <= k < name.len() && !#[trigger] is_hex_digit(name[k]);
        assert(is_hex_digit(b[k]));
    }
}

/// Batch resolution never fails as a whole: every entry that resolves is
/// kept under its own label and color, and every kept entry comes from an
/// input entry that resolves to it.
pub proof fn lemma_parsed_colors_keep_good_entries(entries: Seq<(String, String)>)
    ensures
        parsed_colors(entries).len() <= entries.len(),
        forall|i: int|
            0 <= i < entries.len() && (#[trigger] resolve_entry(entries[i])) is Some ==> exists|
                j: int,
            |
                0 <= j < parsed_colors(entries).len() && #[trigger] parsed_colors(entries)[j] == (
                    entries[i].0@,
                    resolve_entry(entries[i])->0,
                ),
        forall|j: int|
            #![trigger parsed_colors(entries)[j]]
            0 <= j < parsed_colors(entries).len() ==> exists|i: int|
                #![trigger entries[i]]
                0 <= i < entries.len() && parsed_colors(entries)[j].0 == entries[i].0@
                    && resolve_entry(entries[i]) == Some(parsed_colors(entries)[j].1),
    decreases entries.len(),
{
    if entries.len() > 0 {
        let init = entries.drop_last();
        lemma_parsed_colors_keep_good_entries(init);
        let rest = parsed_colors(init);
        let out = parsed_colors(entries);
        let n = entries.len() - 1;
        assert forall|i: int|
            0 <= i < entries.len() && (#[trigger] resolve_entry(entries[i])) is Some implies exists|
                j: int,
            |
                0 <= j < out.len() && #[trigger] out[j] == (
                    entries[i].0@,
                    resolve_entry(entries[i])->0,
                ) by {
            if i < n {
                assert(init[i] == entries[i]);
                assert(resolve_entry(init[i]) is Some);
                let j = choose|j: int|
                    0 <= j < rest.len() && #[trigger] rest[j] == (
                        init[i].0@,
                        resolve_entry(init[i])->0,
                    );
                assert(out[j] == rest[j]);
            } else {
                assert(out[rest.len() as int] == (entries[i].0@, resolve_entry(entries[i])->0));
            }
        }
        assert forall|j: int| #![trigger out[j]] 0 <= j < out.len() implies exists|i: int|
            #![trigger entries[i]]
            0 <= i < entries.len() && out[j].0 == entries[i].0@ && resolve_entry(entries[i])
                == Some(out[j].1) by {
            if j < rest.len() {
                assert(out[j] == rest[j]);
                let i = choose|i: int|
                    #![trigger init[i]]
                    0 <= i < init.len() && rest[j].0 == init[i].0@ && resolve_entry(init[i])
                        == Some(rest[j].1);
                assert(init[i] == entries[i]);
            } else {
                assert(entries[n] == entries.last());
            }
        }
    }
}

/// Every label that batch resolution gives is the label of an input entry
/// before or at the same position.
proof fn lemma_parsed_labels_come_from_entries(entries: Seq<(String, String)>)
    ensures
        forall|j: int|
            #![trigger parsed_colors(entries)[j]]
            0 <= j < parsed_colors(entries).len() ==> exists|k: int|
                #![trigger entries[k]]
                0 <= k < entries.len() && parsed_colors(entries)[j].0 == entries[k].0@,
    decreases entries.len(),
{
    if entries.len() > 0 {
        let init = entries.drop_last();
        lemma_parsed_labels_come_from_entries(init);
        let rest = parsed_colors(init);
        let out = parsed_colors(entries);
        assert forall|j: int| #![trigger out[j]] 0 <= j < out.len() implies exists|k: int|
            #![trigger entries[k]]
            0 <= k < entries.len() && out[j].0 == entries[k].0@ by {
            if j < rest.len() {
                assert(out[j] == rest[j]);
                let k = choose|k: int| #![trigger init[k]] 0 <= k < init.len() && rest[j].0 == init[k].0@;
                assert(init[k] == entries[k]);
            } else {
                assert(entries[entries.len() - 1] == entries.last());
            }
        }
    }
}

/// Batch resolution keeps labels unique: where no two input entries share
/// a label, no two resolved entries do.
pub proof fn lemma_parsed_colors_keep_labels_unique(entries: Seq<(String, String)>)
    requires
        labels_unique(spec_view(entries)),
    ensures
        labels_unique(parsed_colors(entries)),
    decreases entries.len(),
{
    if entries.len() > 0 {
        let init = entries.drop_last();
        let n = entries.len() - 1;
        let all = spec_view(entries);
        assert forall|i: int, j: int| 0 <= i < j < init.len() implies #[trigger] spec_view(
            init,
        )[i].0 != #[trigger] spec_view(init)[j].0 by {
            assert(spec_view(init)[i] == all[i]);
            assert(spec_view(init)[j] == all[j]);
        }
        lemma_parsed_colors_keep_labels_unique(init);
        lemma_parsed_labels_come_from_entries(init);
        let rest = parsed_colors(init);
        let out = parsed_colors(entries);
        if out.len() > rest.len() {
            assert forall|i: int, j: int| 0 <= i < j < out.len() implies #[trigger] out[i].0
                != #[trigger] out[j].0 by {
                assert(out[i] == rest[i]);
                if j == rest.len() {
                    let k = choose|k: int|
                        #![trigger init[k]]
                        0 <= k < init.len() && rest[i].0 == init[k].0@;
                    assert(init[k] == entries[k]);
                    assert(all[k].0 == entries[k].0@);
                    assert(all[n].0 == entries[n].0@);
                    assert(all[k].0 != all[n].0);
                } else {
                    assert(out[j] == rest[j]);
                }
            }
        } else {
            assert(out == rest);
        }
    }
}

} // verus!
