use vstd::prelude::*;
use vstd::utf8::encode_utf8;

use crate::parameters::Parameters;
use crate::text::string_push_char;

verus! {

/// Bytes that stand for themselves in a query string; every other byte is
/// percent-escaped.
pub open spec fn is_unreserved_byte(b: u8) -> bool {
    (0x41 <= b <= 0x5a) || (0x61 <= b <= 0x7a) || (0x30 <= b <= 0x39) || b == 0x2d || b == 0x2e
        || b == 0x5f || b == 0x7e
}

/// The uppercase hexadecimal digit character for `d` (0 through 15).
pub open spec fn hex_digit_char(d: int) -> char {
    if d == 0 {
        '0'
    } else if d == 1 {
        '1'
    } else if d == 2 {
        '2'
    } else if d == 3 {
        '3'
    } else if d == 4 {
        '4'
    } else if d == 5 {
        '5'
    } else if d == 6 {
        '6'
    } else if d == 7 {
        '7'
    } else if d == 8 {
        '8'
    } else if d == 9 {
        '9'
    } else if d == 10 {
        'A'
    } else if d == 11 {
        'B'
    } else if d == 12 {
        'C'
    } else if d == 13 {
        'D'
    } else if d == 14 {
        'E'
    } else {
        'F'
    }
}

/// Whether `c` is a hexadecimal digit, in either case.
pub open spec fn is_hex_char(c: char) -> bool {
    (48 <= c as u32 <= 57) || (65 <= c as u32 <= 70) || (97 <= c as u32 <= 102)
}

/// The numeric value of a hexadecimal digit character.
pub open spec fn hex_char_val(c: char) -> int {
    if 48 <= c as u32 <= 57 {
        c as u32 - 48
    } else if 65 <= c as u32 <= 70 {
        c as u32 - 55
    } else {
        c as u32 - 87
    }
}

/// The percent-encoding of one byte: unreserved bytes stand for themselves,
/// every other byte becomes a percent sign and two uppercase hex digits.
pub open spec fn enc_byte(b: u8) -> Seq<char> {
    if is_unreserved_byte(b) {
        seq![b as char]
    } else {
        seq!['%', hex_digit_char(b as int / 16), hex_digit_char(b as int % 16)]
    }
}

/// The percent-encoding of a byte sequence.
pub open spec fn enc_bytes(bs: Seq<u8>) -> Seq<char>
    decreases bs.len(),
{
    if bs.len() == 0 {
        Seq::empty()
    } else {
        enc_byte(bs[0]) + enc_bytes(bs.drop_first())
    }
}

/// The percent-encoding of a parameter value: its UTF-8 bytes, each encoded.
pub open spec fn enc_value(v: Seq<char>) -> Seq<char> {
    enc_bytes(encode_utf8(v))
}

/// One rendered pair: the key stands as it is, the value percent-encoded,
/// an equals sign between them.
pub open spec fn enc_pair(p: (Seq<char>, Seq<char>)) -> Seq<char> {
    p.0 + seq!['='] + enc_value(p.1)
}

/// The rendered query string: the pairs in order, joined by ampersands.
pub open spec fn spec_render(ps: Seq<(Seq<char>, Seq<char>)>) -> Seq<char>
    decreases ps.len(),
{
    if ps.len() == 0 {
        Seq::empty()
    } else if ps.len() == 1 {
        enc_pair(ps[0])
    } else {
        enc_pair(ps[0]) + seq!['&'] + spec_render(ps.drop_first())
    }
}

/// A key that the query-string syntax can carry verbatim: it holds neither
/// separator character.
pub open spec fn query_safe_key(k: Seq<char>) -> bool {
    forall|i: int| 0 <= i < k.len() ==> k[i] != '&' && k[i] != '='
}

/// The position of the first occurrence of `c` in `s`, or -1.
pub open spec fn find_char(s: Seq<char>, c: char) -> int
    decreases s.len(),
{
    if s.len() == 0 {
        -1
    } else if s[0] == c {
        0
    } else {
        let r = find_char(s.drop_first(), c);
        if r == -1 {
            -1
        } else {
            r + 1
        }
    }
}

/// The percent-decoding of a segment into bytes: a percent sign must be
/// followed by two hex digits, any other character must be plain ASCII and
/// stands for its own byte. `None` when the segment is malformed.
pub open spec fn dec_bytes(s: Seq<char>) -> Option<Seq<u8>>
    decreases s.len(),
{
    if s.len() == 0 {
        Some(Seq::empty())
    } else if s[0] == '%' {
        if s.len() >= 3 && is_hex_char(s[1]) && is_hex_char(s[2]) {
            match dec_bytes(s.skip(3)) {
                Some(r) => Some(
                    seq![(hex_char_val(s[1]) * 16 + hex_char_val(s[2])) as u8] + r,
                ),
                None => None,
            }
        } else {
            None
        }
    } else if (s[0] as u32) < 128 {
        match dec_bytes(s.drop_first()) {
            Some(r) => Some(seq![(s[0] as u32) as u8] + r),
            None => None,
        }
    } else {
        None
    }
}

/// The parse of one `key=value` segment: the key is taken verbatim up to the
/// first equals sign, the value is percent-decoded; a segment without an
/// equals sign is a key with an empty value.
pub open spec fn spec_parse_pair(seg: Seq<char>) -> Option<(Seq<char>, Seq<u8>)> {
    let e = find_char(seg, '=');
    if e == -1 {
        Some((seg, Seq::empty()))
    } else {
        match dec_bytes(seg.skip(e + 1)) {
            Some(v) => Some((seg.take(e), v)),
            None => None,
        }
    }
}

/// The parse of a whole query string: segments split at ampersands, each
/// parsed as one pair. The empty string parses to no pairs at all.
pub open spec fn spec_parse(s: Seq<char>) -> Option<Seq<(Seq<char>, Seq<u8>)>>
    decreases s.len(),
{
    if s.len() == 0 {
        Some(Seq::empty())
    } else {
        let a = find_char(s, '&');
        if 0 <= a < s.len() {
            match (spec_parse_pair(s.take(a)), spec_parse(s.skip(a + 1))) {
                (Some(p), Some(r)) => Some(seq![p] + r),
                _ => None,
            }
        } else {
            match spec_parse_pair(s) {
                Some(p) => Some(seq![p]),
                None => None,
            }
        }
    }
}

/// `find_char` points at the first occurrence of `c`: everything before it
/// differs from `c`, and a result of -1 means `c` does not occur at all.
proof fn lemma_find_char(s: Seq<char>, c: char)
    ensures
        find_char(s, c) == -1 ==> forall|j: int| 0 <= j < s.len() ==> s[j] != c,
        find_char(s, c) != -1 ==> 0 <= find_char(s, c) < s.len() && s[find_char(s, c)] == c,
        find_char(s, c) != -1 ==> forall|j: int| 0 <= j < find_char(s, c) ==> s[j] != c,
    decreases s.len(),
{
    if s.len() > 0 && s[0] != c {
        let t = s.drop_first();
        lemma_find_char(t, c);
        if find_char(t, c) == -1 {
            assert forall|j: int| 0 <= j < s.len() implies s[j] != c by {
                if j >= 1 {
                    assert(s[j] == t[j - 1]);
                    assert(t[j - 1] != c);
                }
            }
        } else {
            assert(s[find_char(s, c)] == t[find_char(t, c)]);
            assert forall|j: int| 0 <= j < find_char(s, c) implies s[j] != c by {
                if j >= 1 {
                    assert(s[j] == t[j - 1]);
                    assert(t[j - 1] != c);
                }
            }
        }
    }
}

/// When `c` first occurs at position `i`, `find_char` returns `i`.
proof fn lemma_find_char_at(s: Seq<char>, c: char, i: int)
    requires
        0 <= i < s.len(),
        s[i] == c,
        forall|j: int| 0 <= j < i ==> s[j] != c,
    ensures
        find_char(s, c) == i,
{
    lemma_find_char(s, c);
    let r = find_char(s, c);
    if r == -1 {
        assert(s[i] != c);
        assert(false);
    } else if r < i {
        assert(s[r] != c);
        assert(false);
    } else if r > i {
        assert(s[i] != c);
        assert(false);
    }
}

/// When `c` does not occur in `s`, `find_char` returns -1.
proof fn lemma_find_char_none(s: Seq<char>, c: char)
    requires
        forall|j: int| 0 <= j < s.len() ==> s[j] != c,
    ensures
        find_char(s, c) == -1,
{
    lemma_find_char(s, c);
    let r = find_char(s, c);
    if r != -1 {
        assert(s[r] != c);
        assert(false);
    }
}

/// Appending a byte extends a byte sequence's encoding at the end.
proof fn lemma_enc_bytes_snoc(bs: Seq<u8>, b: u8)
    ensures
        enc_bytes(bs.push(b)) == enc_bytes(bs) + enc_byte(b),
    decreases bs.len(),
{
    let s = bs.push(b);
    assert(s.len() == bs.len() + 1);
    if bs.len() == 0 {
        assert(s[0] == b);
        assert(s.drop_first() =~= Seq::<u8>::empty());
        assert(enc_bytes(s.drop_first()) == Seq::<char>::empty());
        assert(enc_bytes(s) == enc_byte(s[0]) + enc_bytes(s.drop_first()));
        assert(enc_bytes(s) =~= enc_byte(b));
        assert(enc_bytes(bs) == Seq::<char>::empty());
        assert(enc_bytes(s) =~= enc_bytes(bs) + enc_byte(b));
    } else {
        assert(s[0] == bs[0]);
        assert(s.drop_first() =~= bs.drop_first().push(b));
        lemma_enc_bytes_snoc(bs.drop_first(), b);
        assert(enc_bytes(s) == enc_byte(s[0]) + enc_bytes(s.drop_first()));
        assert(enc_bytes(s.drop_first()) == enc_bytes(bs.drop_first()) + enc_byte(b));
        assert(enc_bytes(bs) == enc_byte(bs[0]) + enc_bytes(bs.drop_first()));
        assert(enc_bytes(s) =~= enc_bytes(bs) + enc_byte(b));
    }
}

/// Whether the byte `b` is unreserved.
fn is_unreserved(b: u8) -> (r: bool)
    ensures
        r == is_unreserved_byte(b),
{
    (0x41 <= b && b <= 0x5a) || (0x61 <= b && b <= 0x7a) || (0x30 <= b && b <= 0x39) || b == 0x2d
        || b == 0x2e || b == 0x5f || b == 0x7e
}

/// The uppercase hexadecimal digit for `d`.
fn hex_digit(d: u8) -> (r: char)
    requires
        d < 16,
    ensures
        r == hex_digit_char(d as int),
{
    match d {
        0 => '0',
        1 => '1',
        2 => '2',
        3 => '3',
        4 => '4',
        5 => '5',
        6 => '6',
        7 => '7',
        8 => '8',
        9 => '9',
        10 => 'A',
        11 => 'B',
        12 => 'C',
        13 => 'D',
        14 => 'E',
        _ => 'F',
    }
}

/// Appends the percent-encoding of `v` to `out`.
fn encode_value_into(out: &mut String, v: &str)
    ensures
        final(out)@ == old(out)@ + enc_value(v@),
{
    let bytes = v.as_bytes_vec();
    let n = bytes.len();
    let mut i: usize = 0;
    while i < n
        invariant
            bytes@ == encode_utf8(v@),
            n == bytes@.len(),
            i <= n,
            out@ == old(out)@ + enc_bytes(bytes@.take(i as int)),
        decreases n - i,
    {
        let b = bytes[i];
        if is_unreserved(b) {
            string_push_char(out, b as char);
        } else {
            string_push_char(out, '%');
            string_push_char(out, hex_digit(b / 16));
            string_push_char(out, hex_digit(b % 16));
        }
        proof {
            lemma_enc_bytes_snoc(bytes@.take(i as int), b);
            assert(bytes@.take(i + 1) =~= bytes@.take(i as int).push(b));
            assert(out@ =~= old(out)@ + enc_bytes(bytes@.take(i + 1)));
        }
        i += 1;
    }
    proof {
        assert(bytes@.take(n as int) =~= bytes@);
    }
}

/// Appending a pair extends the rendering by a separator and that pair.
proof fn lemma_render_snoc(s: Seq<(Seq<char>, Seq<char>)>, p: (Seq<char>, Seq<char>))
    requires
        s.len() >= 1,
    ensures
        spec_render(s.push(p)) == spec_render(s) + seq!['&'] + enc_pair(p),
    decreases s.len(),
{
    let t = s.push(p);
    assert(t.len() == s.len() + 1);
    assert(t[0] == s[0]);
    if s.len() == 1 {
        assert(t.drop_first() =~= seq![p]);
        assert(spec_render(t.drop_first()) == enc_pair(p));
        assert(spec_render(t) == enc_pair(t[0]) + seq!['&'] + spec_render(t.drop_first()));
        assert(spec_render(s) == enc_pair(s[0]));
        assert(spec_render(t) =~= spec_render(s) + seq!['&'] + enc_pair(p));
    } else {
        assert(t.drop_first() =~= s.drop_first().push(p));
        lemma_render_snoc(s.drop_first(), p);
        assert(spec_render(t) == enc_pair(t[0]) + seq!['&'] + spec_render(t.drop_first()));
        assert(spec_render(t.drop_first()) == spec_render(s.drop_first()) + seq!['&'] + enc_pair(
            p,
        ));
        assert(spec_render(s) == enc_pair(s[0]) + seq!['&'] + spec_render(s.drop_first()));
        assert(spec_render(t) =~= spec_render(s) + seq!['&'] + enc_pair(p));
    }
}

/// Renders the collected parameters as a query string, per pair the key, an
/// equals sign, and the percent-encoded value, the pairs joined by
/// ampersands.
pub fn render_query(ps: &Parameters) -> (r: String)
    ensures
        r@ == spec_render(ps@),
{
    let mut out = String::new();
    let n = ps.len();
    let mut i: usize = 0;
    while i < n
        invariant
            n == ps@.len(),
            i <= n,
            out@ == spec_render(ps@.take(i as int)),
        decreases n - i,
    {
        if i > 0 {
            string_push_char(&mut out, '&');
        }
        out.append(ps.key_at(i).as_str());
        string_push_char(&mut out, '=');
        encode_value_into(&mut out, ps.value_at(i).as_str());
        proof {
            let taken = ps@.take(i + 1);
            assert(taken =~= ps@.take(i as int).push(ps@[i as int]));
            if i == 0 {
                assert(taken.len() == 1);
                assert(taken[0] == ps@[0]);
                assert(out@ =~= enc_pair(ps@[0]));
                assert(out@ =~= spec_render(taken));
            } else {
                lemma_render_snoc(ps@.take(i as int), ps@[i as int]);
                assert(out@ =~= spec_render(taken));
            }
        }
        i += 1;
    }
    proof {
        assert(ps@.take(n as int) =~= ps@);
    }
    out
}

/// Shape of the encoding of one byte: its length, that none of its
/// characters is a separator, and enough of its contents to decode it again.
proof fn lemma_enc_byte_props(b: u8)
    ensures
        is_unreserved_byte(b) ==> enc_byte(b) == seq![b as char],
        is_unreserved_byte(b) ==> (b as char) != '%' && (b as char) as u32 == b && ((b
            as char) as u32) < 128,
        !is_unreserved_byte(b) ==> enc_byte(b).len() == 3,
        !is_unreserved_byte(b) ==> enc_byte(b)[0] == '%' && is_hex_char(enc_byte(b)[1])
            && is_hex_char(enc_byte(b)[2]),
        !is_unreserved_byte(b) ==> hex_char_val(enc_byte(b)[1]) * 16 + hex_char_val(
            enc_byte(b)[2],
        ) == b as int,
        forall|i: int|
            0 <= i < enc_byte(b).len() ==> enc_byte(b)[i] != '&' && enc_byte(b)[i] != '=',
{
}

/// No character of a percent-encoded byte sequence is a separator.
proof fn lemma_enc_bytes_inert(bs: Seq<u8>)
    ensures
        forall|i: int|
            0 <= i < enc_bytes(bs).len() ==> enc_bytes(bs)[i] != '&' && enc_bytes(bs)[i] != '=',
    decreases bs.len(),
{
    if bs.len() > 0 {
        lemma_enc_byte_props(bs[0]);
        lemma_enc_bytes_inert(bs.drop_first());
        let s = enc_bytes(bs);
        let head = enc_byte(bs[0]);
        let rest = enc_bytes(bs.drop_first());
        assert forall|i: int| 0 <= i < s.len() implies s[i] != '&' && s[i] != '=' by {
            if i < head.len() {
                assert(s[i] == head[i]);
            } else {
                assert(s[i] == rest[i - head.len()]);
            }
        }
    }
}

/// Percent-decoding undoes percent-encoding of any byte sequence.
proof fn lemma_dec_enc_bytes(bs: Seq<u8>)
    ensures
        dec_bytes(enc_bytes(bs)) == Some(bs),
    decreases bs.len(),
{
    if bs.len() == 0 {
        assert(dec_bytes(enc_bytes(bs)) =~= Some(bs));
    } else {
        let b = bs[0];
        let t = bs.drop_first();
        let s = enc_bytes(bs);
        lemma_enc_byte_props(b);
        lemma_dec_enc_bytes(t);
        if is_unreserved_byte(b) {
            assert(s[0] == b as char);
            assert(s.drop_first() =~= enc_bytes(t));
            let decoded = dec_bytes(s);
            assert((s[0] as u32) as u8 == b);
            assert(decoded == Some(seq![b] + t));
            assert(seq![b] + t =~= bs);
        } else {
            assert(s[0] == '%');
            assert(s[1] == hex_digit_char(b as int / 16));
            assert(s[2] == hex_digit_char(b as int % 16));
            assert(s.len() >= 3);
            assert(s.skip(3) =~= enc_bytes(t));
            assert(hex_char_val(s[1]) * 16 + hex_char_val(s[2]) == b as int);
            assert((hex_char_val(s[1]) * 16 + hex_char_val(s[2])) as u8 == b);
            let decoded = dec_bytes(s);
            assert(decoded == Some(seq![b] + t));
            assert(seq![b] + t =~= bs);
        }
    }
}

/// Parsing one rendered pair gives back its key verbatim and the UTF-8
/// bytes of its value.
proof fn lemma_parse_pair_round(p: (Seq<char>, Seq<char>))
    requires
        query_safe_key(p.0),
    ensures
        spec_parse_pair(enc_pair(p)) == Some((p.0, encode_utf8(p.1))),
{
    let seg = enc_pair(p);
    let kl = p.0.len() as int;
    lemma_enc_bytes_inert(encode_utf8(p.1));
    assert(seg[kl] == '=');
    assert forall|j: int| 0 <= j < kl implies seg[j] != '=' by {
        assert(seg[j] == p.0[j]);
    }
    lemma_find_char_at(seg, '=', kl);
    assert(seg.take(kl) =~= p.0);
    assert(seg.skip(kl + 1) =~= enc_value(p.1));
    lemma_dec_enc_bytes(encode_utf8(p.1));
}

/// No character of a rendered pair is an ampersand.
proof fn lemma_enc_pair_no_amp(p: (Seq<char>, Seq<char>))
    requires
        query_safe_key(p.0),
    ensures
        forall|j: int| 0 <= j < enc_pair(p).len() ==> enc_pair(p)[j] != '&',
{
    let seg = enc_pair(p);
    let kl = p.0.len() as int;
    lemma_enc_bytes_inert(encode_utf8(p.1));
    assert forall|j: int| 0 <= j < seg.len() implies seg[j] != '&' by {
        if j < kl {
            assert(seg[j] == p.0[j]);
        } else if j > kl {
            assert(seg[j] == enc_value(p.1)[j - kl - 1]);
        }
    }
}

/// Round trip: parsing a rendered Parameter Collection yields the same
/// pairs, in the same order, each key verbatim and each value as the UTF-8
/// bytes of the original text (so, by UTF-8 round-trip, the original
/// characters). The keys must carry no separator character; a key holding
/// an ampersand or an equals sign cannot survive the query-string syntax.
pub proof fn lemma_query_round_trip(ps: Seq<(Seq<char>, Seq<char>)>)
    requires
        forall|i: int| 0 <= i < ps.len() ==> query_safe_key(#[trigger] ps[i].0),
    ensures
        spec_parse(spec_render(ps)) == Some(
            ps.map_values(|p: (Seq<char>, Seq<char>)| (p.0, encode_utf8(p.1))),
        ),
    decreases ps.len(),
{
    let f = |p: (Seq<char>, Seq<char>)| (p.0, encode_utf8(p.1));
    if ps.len() == 0 {
        assert(spec_parse(spec_render(ps)) =~= Some(ps.map_values(f)));
    } else if ps.len() == 1 {
        let p = ps[0];
        let s = spec_render(ps);
        assert(s == enc_pair(p));
        lemma_enc_pair_no_amp(p);
        lemma_find_char_none(s, '&');
        lemma_parse_pair_round(p);
        assert(s.len() > 0);
        assert(spec_parse(s) == Some(seq![f(p)]));
        assert(seq![f(p)] =~= ps.map_values(f));
    } else {
        let p = ps[0];
        let rest = ps.drop_first();
        let s = spec_render(ps);
        let head = enc_pair(p);
        let kl = head.len() as int;
        assert(s == head + seq!['&'] + spec_render(rest));
        lemma_enc_pair_no_amp(p);
        assert(s[kl] == '&');
        assert forall|j: int| 0 <= j < kl implies s[j] != '&' by {
            assert(s[j] == head[j]);
        }
        lemma_find_char_at(s, '&', kl);
        assert(s.take(kl) =~= head);
        assert(s.skip(kl + 1) =~= spec_render(rest));
        lemma_parse_pair_round(p);
        assert(forall|i: int| 0 <= i < rest.len() ==> query_safe_key(#[trigger] rest[i].0));
        lemma_query_round_trip(rest);
        assert(spec_parse(s) == Some(seq![f(p)] + rest.map_values(f)));
        assert(seq![f(p)] + rest.map_values(f) =~= ps.map_values(f));
    }
}

/// Whether `c` is a hexadecimal digit, in either case.
fn is_hex(c: char) -> (r: bool)
    ensures
        r == is_hex_char(c),
{
    let u = c as u32;
    (48 <= u && u <= 57) || (65 <= u && u <= 70) || (97 <= u && u <= 102)
}

/// The numeric value of a hexadecimal digit character.
fn hex_val(c: char) -> (r: u8)
    requires
        is_hex_char(c),
    ensures
        r as int == hex_char_val(c),
        r < 16,
{
    let u = c as u32;
    if 48 <= u && u <= 57 {
        (u - 48) as u8
    } else if 65 <= u && u <= 70 {
        (u - 55) as u8
    } else {
        (u - 87) as u8
    }
}

/// Collects the characters of a string into a vector.
fn str_to_chars(s: &str) -> (r: Vec<char>)
    ensures
        r@ == s@,
{
    let n = s.unicode_len();
    let mut v: Vec<char> = Vec::new();
    let mut i: usize = 0;
    while i < n
        invariant
            n == s@.len(),
            i <= n,
            v@ == s@.take(i as int),
        decreases n - i,
    {
        v.push(s.get_char(i));
        proof {
            assert(s@.take(i + 1) =~= s@.take(i as int).push(s@[i as int]));
        }
        i += 1;
    }
    proof {
        assert(s@.take(n as int) =~= s@);
    }
    v
}

/// Builds a string from a range of collected characters.
fn build_string(chars: &Vec<char>, lo: usize, hi: usize) -> (r: String)
    requires
        lo <= hi <= chars@.len(),
    ensures
        r@ == chars@.subrange(lo as int, hi as int),
{
    let mut out = String::new();
    let mut i: usize = lo;
    while i < hi
        invariant
            lo <= i <= hi <= chars@.len(),
            out@ == chars@.subrange(lo as int, i as int),
        decreases hi - i,
    {
        string_push_char(&mut out, chars[i]);
        proof {
            assert(chars@.subrange(lo as int, i + 1) =~= chars@.subrange(lo as int, i as int).push(
                chars@[i as int],
            ));
        }
        i += 1;
    }
    out
}

/// Percent-decodes the characters in `[lo, hi)` into bytes.
fn percent_decode(chars: &Vec<char>, lo: usize, hi: usize) -> (r: Option<Vec<u8>>)
    requires
        lo <= hi <= chars@.len(),
    ensures
        match r {
            Some(v) => dec_bytes(chars@.subrange(lo as int, hi as int)) == Some(v@),
            None => dec_bytes(chars@.subrange(lo as int, hi as int)) is None,
        },
{
    let ghost whole = chars@.subrange(lo as int, hi as int);
    let mut acc: Vec<u8> = Vec::new();
    let mut i: usize = lo;
    while i < hi
        invariant
            lo <= i <= hi <= chars@.len(),
            whole == chars@.subrange(lo as int, hi as int),
            match dec_bytes(chars@.subrange(i as int, hi as int)) {
                Some(rest) => dec_bytes(whole) == Some(acc@ + rest),
                None => dec_bytes(whole) is None,
            },
        decreases hi - i,
    {
        let ghost before = chars@.subrange(i as int, hi as int);
        let c = chars[i];
        proof {
            assert(before[0] == c);
        }
        if c == '%' {
            if hi - i < 3 {
                proof {
                    assert(before.len() < 3);
                    assert(dec_bytes(before) is None);
                }
                return None;
            }
            let c1 = chars[i + 1];
            let c2 = chars[i + 2];
            proof {
                assert(before[1] == c1);
                assert(before[2] == c2);
            }
            if !is_hex(c1) || !is_hex(c2) {
                proof {
                    assert(dec_bytes(before) is None);
                }
                return None;
            }
            let b: u8 = hex_val(c1) * 16 + hex_val(c2);
            acc.push(b);
            proof {
                assert(before.skip(3) =~= chars@.subrange(i + 3, hi as int));
                assert(b as int == hex_char_val(c1) * 16 + hex_char_val(c2));
                match dec_bytes(chars@.subrange(i + 3, hi as int)) {
                    Some(rest) => {
                        assert(dec_bytes(before) == Some(seq![b] + rest));
                        assert(acc@ + rest =~= (acc@.drop_last() + seq![b]) + rest);
                        assert(acc@.drop_last() + (seq![b] + rest) =~= acc@ + rest);
                    },
                    None => {
                        assert(dec_bytes(before) is None);
                    },
                }
            }
            i += 3;
        } else {
            let u = c as u32;
            if u >= 128 {
                proof {
                    assert(dec_bytes(before) is None);
                }
                return None;
            }
            let b: u8 = u as u8;
            acc.push(b);
            proof {
                assert(before.drop_first() =~= chars@.subrange(i + 1, hi as int));
                assert(b == (c as u32) as u8);
                match dec_bytes(chars@.subrange(i + 1, hi as int)) {
                    Some(rest) => {
                        assert(dec_bytes(before) == Some(seq![b] + rest));
                        assert(acc@.drop_last() + (seq![b] + rest) =~= acc@ + rest);
                    },
                    None => {
                        assert(dec_bytes(before) is None);
                    },
                }
            }
            i += 1;
        }
    }
    proof {
        assert(chars@.subrange(i as int, hi as int) =~= Seq::<char>::empty());
        assert(dec_bytes(chars@.subrange(i as int, hi as int)) == Some(Seq::<u8>::empty()));
        assert(acc@ + Seq::<u8>::empty() =~= acc@);
    }
    Some(acc)
}

/// Parses one `key=value` segment held in `[lo, hi)`.
fn parse_segment(chars: &Vec<char>, lo: usize, hi: usize) -> (r: Option<(String, Vec<u8>)>)
    requires
        lo <= hi <= chars@.len(),
    ensures
        match r {
            Some(p) => spec_parse_pair(chars@.subrange(lo as int, hi as int)) == Some(
                (p.0@, p.1@),
            ),
            None => spec_parse_pair(chars@.subrange(lo as int, hi as int)) is None,
        },
{
    let ghost seg = chars@.subrange(lo as int, hi as int);
    let mut j: usize = lo;
    while j < hi && chars[j] != '='
        invariant
            lo <= j <= hi <= chars@.len(),
            forall|k: int| lo <= k < j ==> chars@[k] != '=',
        decreases hi - j,
    {
        j += 1;
    }
    if j == hi {
        proof {
            assert forall|k: int| 0 <= k < seg.len() implies seg[k] != '=' by {
                assert(seg[k] == chars@[lo + k]);
            }
            lemma_find_char_none(seg, '=');
        }
        let key = build_string(chars, lo, hi);
        let empty: Vec<u8> = Vec::new();
        proof {
            assert(key@ == seg);
            assert(empty@ =~= Seq::<u8>::empty());
        }
        Some((key, empty))
    } else {
        proof {
            assert(seg[j - lo] == chars@[j as int]);
            assert forall|k: int| 0 <= k < j - lo implies seg[k] != '=' by {
                assert(seg[k] == chars@[lo + k]);
            }
            lemma_find_char_at(seg, '=', j - lo);
        }
        let key = build_string(chars, lo, j);
        proof {
            assert(seg.take(j - lo) =~= chars@.subrange(lo as int, j as int));
            assert(seg.skip(j - lo + 1) =~= chars@.subrange(j + 1, hi as int));
        }
        match percent_decode(chars, j + 1, hi) {
            Some(v) => Some((key, v)),
            None => None,
        }
    }
}

/// Parses a query string back into its pairs: keys verbatim, values
/// percent-decoded to bytes. `None` when some segment is malformed.
pub fn parse_query(s: &str) -> (r: Option<Vec<(String, Vec<u8>)>>)
    ensures
        match r {
            Some(v) => spec_parse(s@) matches Some(ps) && ps.len() == v@.len() && (forall|i: int|
                0 <= i < v@.len() ==> #[trigger] ps[i] == (v@[i].0@, v@[i].1@)),
            None => spec_parse(s@) is None,
        },
{
    let chars = str_to_chars(s);
    let n = chars.len();
    if n == 0 {
        let empty: Vec<(String, Vec<u8>)> = Vec::new();
        return Some(empty);
    }
    let mut out: Vec<(String, Vec<u8>)> = Vec::new();
    let ghost mut done = Seq::<(Seq<char>, Seq<u8>)>::empty();
    let mut pos: usize = 0;
    proof {
        assert(s@.skip(0) =~= s@);
        match spec_parse(s@) {
            Some(rest) => {
                assert(done + rest =~= rest);
            },
            None => {},
        }
    }
    loop
        invariant
            chars@ == s@,
            n == chars@.len(),
            n > 0,
            pos <= n,
            done.len() == out@.len(),
            forall|i: int| 0 <= i < done.len() ==> #[trigger] done[i] == (out@[i].0@, out@[i].1@),
            match spec_parse(s@.skip(pos as int)) {
                Some(rest) => spec_parse(s@) == Some(done + rest),
                None => spec_parse(s@) is None,
            },
        decreases n - pos,
    {
        if pos == n {
            proof {
                assert(s@.skip(pos as int) =~= Seq::<char>::empty());
                assert(spec_parse(s@.skip(pos as int)) == Some(
                    Seq::<(Seq<char>, Seq<u8>)>::empty(),
                ));
                assert(done + Seq::<(Seq<char>, Seq<u8>)>::empty() =~= done);
            }
            return Some(out);
        }
        let ghost tail = s@.skip(pos as int);
        let mut j: usize = pos;
        while j < n && chars[j] != '&'
            invariant
                pos <= j <= n,
                n == chars@.len(),
                forall|k: int| pos <= k < j ==> chars@[k] != '&',
            decreases n - j,
        {
            j += 1;
        }
        proof {
            assert(tail.len() == n - pos);
            assert forall|k: int| 0 <= k < j - pos implies tail[k] != '&' by {
                assert(tail[k] == chars@[pos + k]);
            }
            if j < n {
                assert(tail[j - pos] == chars@[j as int]);
                lemma_find_char_at(tail, '&', j - pos);
            } else {
                lemma_find_char_none(tail, '&');
            }
        }
        let seg_result = parse_segment(&chars, pos, j);
        proof {
            assert(chars@.subrange(pos as int, j as int) =~= if j < n {
                tail.take(j - pos)
            } else {
                tail
            });
        }
        match seg_result {
            None => {
                proof {
                    assert(spec_parse(tail) is None);
                }
                return None;
            },
            Some(pair) => {
                let ghost gp = (pair.0@, pair.1@);
                out.push(pair);
                proof {
                    done = done.push(gp);
                }
                if j == n {
                    proof {
                        assert(spec_parse(tail) == Some(seq![gp]));
                        assert(done.drop_last() + seq![gp] =~= done);
                    }
                    return Some(out);
                }
                proof {
                    assert(tail.skip(j - pos + 1) =~= s@.skip(j + 1));
                    match spec_parse(s@.skip(j + 1)) {
                        Some(rest) => {
                            assert(spec_parse(tail) == Some(seq![gp] + rest));
                            assert(done.drop_last() + (seq![gp] + rest) =~= done + rest);
                        },
                        None => {
                            assert(spec_parse(tail) is None);
                        },
                    }
                }
                pos = j + 1;
            },
        }
    }
}

} // verus!
