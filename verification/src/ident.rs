//! Module identifiers: parsing the identifier section of a submission and
//! deriving the object-storage key of the matching debug artifact.

use vstd::prelude::*;
use vstd::string::StringExecFns;
use crate::text::digit_char;
use crate::text::digit_to_char;
use crate::text::push_char;

verus! {

/// The character for one hexadecimal digit, lower case.
pub open spec fn hex_char(d: int) -> char {
    if d < 10 {
        digit_char(d)
    } else if d == 10 {
        'a'
    } else if d == 11 {
        'b'
    } else if d == 12 {
        'c'
    } else if d == 13 {
        'd'
    } else if d == 14 {
        'e'
    } else {
        'f'
    }
}

/// Two hexadecimal digits for one byte, high nibble first.
pub open spec fn hex_byte(b: u8) -> Seq<char> {
    seq![hex_char(b as int / 16), hex_char(b as int % 16)]
}

/// The hexadecimal rendering of a byte string.
pub open spec fn hex_bytes(s: Seq<u8>) -> Seq<char>
    decreases s.len(),
{
    if s.len() == 0 {
        Seq::<char>::empty()
    } else {
        hex_byte(s[0]) + hex_bytes(s.drop_first())
    }
}

/// Appending a byte appends its two digits.
pub proof fn lemma_hex_bytes_push(s: Seq<u8>, x: u8)
    ensures
        hex_bytes(s.push(x)) == hex_bytes(s) + hex_byte(x),
    decreases s.len(),
{
    if s.len() == 0 {
        assert(s.push(x)[0] == x);
        assert(s.push(x).drop_first() =~= Seq::<u8>::empty());
        assert(hex_bytes(Seq::<u8>::empty()) == Seq::<char>::empty());
        assert(hex_bytes(s.push(x)) == hex_byte(x) + Seq::<char>::empty());
        assert(hex_bytes(s.push(x)) =~= hex_bytes(s) + hex_byte(x));
    } else {
        assert(s.push(x).drop_first() =~= s.drop_first().push(x));
        lemma_hex_bytes_push(s.drop_first(), x);
        assert(s.push(x)[0] == s[0]);
        assert(hex_bytes(s.push(x)) == hex_byte(s[0]) + (hex_bytes(s.drop_first()) + hex_byte(
            x,
        )));
        assert(hex_bytes(s.push(x)) =~= hex_bytes(s) + hex_byte(x));
    }
}

/// One hexadecimal digit as a character.
pub fn hex_to_char(d: u8) -> (c: char)
    requires
        d < 16,
    ensures
        c == hex_char(d as int),
{
    if d < 10 {
        digit_to_char(d as u64)
    } else {
        match d {
            10 => 'a',
            11 => 'b',
            12 => 'c',
            13 => 'd',
            14 => 'e',
            _ => 'f',
        }
    }
}

/// Appends the hexadecimal rendering of `b[from..to]`.
pub fn push_hex_range(s: &mut String, b: &Vec<u8>, from: usize, to: usize)
    requires
        from <= to <= b@.len(),
    ensures
        final(s)@ == old(s)@ + hex_bytes(b@.subrange(from as int, to as int)),
{
    let mut i: usize = from;
    proof {
        assert(b@.subrange(from as int, from as int) =~= Seq::<u8>::empty());
        assert(old(s)@ + hex_bytes(b@.subrange(from as int, from as int)) =~= old(s)@);
    }
    while i < to
        invariant
            from <= i <= to <= b@.len(),
            s@ == old(s)@ + hex_bytes(b@.subrange(from as int, i as int)),
        decreases to - i,
    {
        let x = b[i];
        let hi = hex_to_char(x / 16);
        let lo = hex_to_char(x % 16);
        push_char(s, hi);
        push_char(s, lo);
        proof {
            assert(b@.subrange(from as int, i as int + 1) =~= b@.subrange(
                from as int,
                i as int,
            ).push(x));
            lemma_hex_bytes_push(b@.subrange(from as int, i as int), x);
            assert(s@ =~= old(s)@ + hex_bytes(b@.subrange(from as int, i as int + 1)));
        }
        i = i + 1;
    }
}

/// The canonical hyphenated rendering of a 128-bit module identifier:
/// lower-case hexadecimal in five hyphen-separated groups of 4, 2, 2, 2 and
/// 6 bytes.
pub open spec fn uuid_hyphenated(b: Seq<u8>) -> Seq<char>
    recommends
        b.len() == 16,
{
    hex_bytes(b.subrange(0, 4)) + seq!['-'] + hex_bytes(b.subrange(4, 6)) + seq!['-'] + hex_bytes(
        b.subrange(6, 8),
    ) + seq!['-'] + hex_bytes(b.subrange(8, 10)) + seq!['-'] + hex_bytes(b.subrange(10, 16))
}

/// Renders a 128-bit module identifier in its canonical hyphenated form.
pub fn format_uuid(b: &Vec<u8>) -> (r: String)
    requires
        b@.len() == 16,
    ensures
        r@ == uuid_hyphenated(b@),
{
    let mut s = String::new();
    push_hex_range(&mut s, b, 0, 4);
    push_char(&mut s, '-');
    push_hex_range(&mut s, b, 4, 6);
    push_char(&mut s, '-');
    push_hex_range(&mut s, b, 6, 8);
    push_char(&mut s, '-');
    push_hex_range(&mut s, b, 8, 10);
    push_char(&mut s, '-');
    push_hex_range(&mut s, b, 10, 16);
    proof {
        assert(s@ =~= uuid_hyphenated(b@));
    }
    s
}

/// The object-storage key of the debug artifact for a module identifier.
pub open spec fn storage_key_spec(id: Seq<u8>) -> Seq<char> {
    "debug-"@ + uuid_hyphenated(id) + ".wasm"@
}

/// Derives the object-storage key of the debug artifact for an identifier.
pub fn storage_key(id: &Vec<u8>) -> (r: String)
    requires
        id@.len() == 16,
    ensures
        r@ == storage_key_spec(id@),
{
    let mut s = String::from_str("debug-");
    let u = format_uuid(id);
    s.append(u.as_str());
    s.append(".wasm");
    proof {
        assert(s@ =~= storage_key_spec(id@));
    }
    s
}

/// Whether the identifier section may be handed to the outside parser: the
/// leading LEB128 length must terminate before its tenth byte, since the
/// parser does not return on a longer run of continuation bytes.
pub open spec fn leb_prefix_bounded(s: Seq<u8>) -> bool {
    ||| s.len() < 10
    ||| exists|i: int| 0 <= i < 9 && s[i] < 128
    ||| s[9] == 0
    ||| s[9] == 1
}

/// Decides whether the identifier section may be handed to the parser.
pub fn leb_prefix_is_bounded(b: &Vec<u8>) -> (r: bool)
    ensures
        r == leb_prefix_bounded(b@),
{
    if b.len() < 10 {
        return true;
    }
    let mut i: usize = 0;
    while i < 9
        invariant
            i <= 9,
            b@.len() >= 10,
            forall|j: int| 0 <= j < i ==> b@[j] >= 128,
        decreases 9 - i,
    {
        if b[i] < 128 {
            return true;
        }
        i = i + 1;
    }
    let last = b[9];
    last == 0 || last == 1
}

/// What the outside parser extracts from an identifier section: the declared
/// number of identifier bytes, taken after the leading length.
pub uninterp spec fn parsed_build_id(s: Seq<u8>) -> Option<Seq<u8>>;

/// Relies on `wasm_parser::parse_custom_section_build_id`: it decodes a
/// LEB128 length and returns that many following bytes, a function of the
/// input alone. The requirement keeps out the inputs on which the parser's
/// length reader does not return normally.
#[verifier::external_body]
pub(crate) fn parse_build_id_section(bytes: &Vec<u8>) -> (r: Option<Vec<u8>>)
    requires
        leb_prefix_bounded(bytes@),
    ensures
        (r is Some) == (parsed_build_id(bytes@) is Some),
        r matches Some(v) ==> parsed_build_id(bytes@) == Some(v@),
{
    wasm_parser::parse_custom_section_build_id(bytes).ok()
}

} // verus!
