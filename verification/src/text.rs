use vstd::prelude::*;

verus! {

/// The character of a decimal digit.
pub open spec fn digit_char(d: nat) -> char {
    if d == 0 { '0' }
    else if d == 1 { '1' }
    else if d == 2 { '2' }
    else if d == 3 { '3' }
    else if d == 4 { '4' }
    else if d == 5 { '5' }
    else if d == 6 { '6' }
    else if d == 7 { '7' }
    else if d == 8 { '8' }
    else { '9' }
}

/// The decimal digits of a natural number, most significant first, with no
/// leading zeros.
pub open spec fn digits_of(n: nat) -> Seq<char>
    decreases n,
{
    if n < 10 {
        seq![digit_char(n)]
    } else {
        digits_of(n / 10).push(digit_char(n % 10))
    }
}

/// The decimal form of an integer, with a leading `-` where it is negative.
pub open spec fn decimal(n: int) -> Seq<char> {
    if n < 0 {
        seq!['-'] + digits_of((-n) as nat)
    } else {
        digits_of(n as nat)
    }
}

/// The number that a text of decimal digits stands for.
pub open spec fn digits_value(s: Seq<char>) -> int
    decreases s.len(),
{
    if s.len() == 0 {
        0
    } else {
        digits_value(s.drop_last()) * 10 + (s.last() as int - '0' as int)
    }
}

proof fn lemma_digit_char_value(d: nat)
    requires
        d < 10,
    ensures
        digit_char(d) as int - '0' as int == d,
{
    if d == 0 {} else if d == 1 {} else if d == 2 {} else if d == 3 {} else if d == 4 {}
    else if d == 5 {} else if d == 6 {} else if d == 7 {} else if d == 8 {} else {}
}

proof fn lemma_digits_of_reads_back(n: nat)
    ensures
        digits_of(n).len() >= 1,
        n < 10 <==> digits_of(n).len() == 1,
        forall|i: int| 0 <= i < digits_of(n).len() ==> '0' <= #[trigger] digits_of(n)[i] && digits_of(n)[i] <= '9',
        digits_value(digits_of(n)) == n,
        n > 0 ==> digits_of(n)[0] != '0',
    decreases n,
{
    if n >= 10 {
        lemma_digits_of_reads_back(n / 10);
        let d = digits_of(n);
        assert(d.drop_last() =~= digits_of(n / 10));
        assert(d[0] == digits_of(n / 10)[0]);
        assert forall|i: int| 0 <= i < d.len() implies '0' <= #[trigger] d[i] && d[i] <= '9' by {
            if i < d.len() - 1 {
                assert(d[i] == digits_of(n / 10)[i]);
            }
        }
        lemma_digit_char_value(n % 10);
        assert(d.last() as int - '0' as int == n % 10);
        assert((n / 10) * 10 + n % 10 == n) by (nonlinear_arith);
    } else {
        lemma_digit_char_value(n);
        assert(digits_of(n).drop_last() =~= Seq::<char>::empty());
        assert(digits_value(Seq::<char>::empty()) == 0);
    }
}

/// The decimal form of a number reads back as that number: a `-` only for a
/// negative number, then at least one decimal digit, with no leading zero
/// (but for zero itself), that together stand for its magnitude.
pub proof fn lemma_decimal_reads_back(n: int)
    ensures
        ({
            let text = decimal(n);
            let digits = if n < 0 { text.drop_first() } else { text };
            &&& (n < 0 <==> text.len() > 0 && text[0] == '-')
            &&& digits.len() >= 1
            &&& forall|i: int| 0 <= i < digits.len() ==> '0' <= #[trigger] digits[i] && digits[i] <= '9'
            &&& digits.len() > 1 ==> digits[0] != '0'
            &&& digits_value(digits) == if n < 0 { -n } else { n }
        }),
{
    if n < 0 {
        lemma_digits_of_reads_back((-n) as nat);
        assert(decimal(n).drop_first() =~= digits_of((-n) as nat));
    } else {
        lemma_digits_of_reads_back(n as nat);
        let d = digits_of(n as nat);
        assert('0' <= d[0] && d[0] <= '9');
    }
}

fn push_digit(s: &mut String, d: u64)
    requires
        d < 10,
    ensures
        final(s)@ == old(s)@.push(digit_char(d as nat)),
{
    proof {
        reveal_strlit("0");
        reveal_strlit("1");
        reveal_strlit("2");
        reveal_strlit("3");
        reveal_strlit("4");
        reveal_strlit("5");
        reveal_strlit("6");
        reveal_strlit("7");
        reveal_strlit("8");
        reveal_strlit("9");
    }
    let ghost before = s@;
    if d == 0 { s.append("0"); }
    else if d == 1 { s.append("1"); }
    else if d == 2 { s.append("2"); }
    else if d == 3 { s.append("3"); }
    else if d == 4 { s.append("4"); }
    else if d == 5 { s.append("5"); }
    else if d == 6 { s.append("6"); }
    else if d == 7 { s.append("7"); }
    else if d == 8 { s.append("8"); }
    else { s.append("9"); }
    assert(s@ =~= before.push(digit_char(d as nat)));
}

fn push_digits(s: &mut String, n: u64)
    ensures
        final(s)@ == old(s)@ + digits_of(n as nat),
    decreases n,
{
    let ghost before = s@;
    if n >= 10 {
        push_digits(s, n / 10);
    }
    push_digit(s, n % 10);
    if n >= 10 {
        assert(s@ =~= before + digits_of(n as nat));
    } else {
        assert(s@ =~= before + digits_of(n as nat));
    }
}

/// The decimal form of a number.
pub fn decimal_text(n: i64) -> (text: String)
    ensures
        text@ == decimal(n as int),
{
    if n < 0 {
        proof {
            reveal_strlit("-");
        }
        let mut text = String::from_str("-");
        let magnitude: u64 = (0i128 - n as i128) as u64;
        push_digits(&mut text, magnitude);
        text
    } else {
        let mut text = String::new();
        push_digits(&mut text, n as u64);
        assert(text@ =~= decimal(n as int));
        text
    }
}

/// Items joined with a separator between each two.
pub open spec fn joined_with(items: Seq<Seq<char>>, sep: Seq<char>) -> Seq<char>
    decreases items.len(),
{
    if items.len() == 0 {
        Seq::empty()
    } else if items.len() == 1 {
        items[0]
    } else {
        joined_with(items.drop_last(), sep) + sep + items.last()
    }
}

/// Joining no items gives the empty text, one item gives that item, and
/// joining two non-empty lists one after the other gives the first joined,
/// the separator, then the second joined.
pub proof fn lemma_joining_splits(a: Seq<Seq<char>>, b: Seq<Seq<char>>, sep: Seq<char>)
    ensures
        joined_with(Seq::<Seq<char>>::empty(), sep) == Seq::<char>::empty(),
        a.len() == 1 ==> joined_with(a, sep) == a[0],
        a.len() > 0 && b.len() > 0 ==> joined_with(a + b, sep) == joined_with(a, sep) + sep + joined_with(b, sep),
    decreases b.len(),
{
    if a.len() > 0 && b.len() > 0 {
        if b.len() == 1 {
            assert((a + b).drop_last() =~= a);
            assert((a + b).last() == b[0]);
        } else {
            lemma_joining_splits(a, b.drop_last(), sep);
            assert((a + b).drop_last() =~= a + b.drop_last());
            assert((a + b).last() == b.last());
        }
    }
}

/// Items joined with a separator between each two.
pub fn join(items: &Vec<String>, sep: &str) -> (text: String)
    ensures
        text@ == joined_with(items.deep_view(), sep@),
{
    let mut text = String::new();
    let mut i: usize = 0;
    while i < items.len()
        invariant
            i <= items@.len(),
            text@ == joined_with(items.deep_view().take(i as int), sep@),
        decreases items@.len() - i,
    {
        assert(items.deep_view().take(i + 1).drop_last() =~= items.deep_view().take(i as int));
        if i > 0 {
            text.append(sep);
        }
        text.append(items[i].as_str());
        proof {
            if i == 0 {
                assert(text@ =~= joined_with(items.deep_view().take(1), sep@));
            }
        }
        i = i + 1;
    }
    assert(items.deep_view().take(items@.len() as int) =~= items.deep_view());
    text
}

/// Whether `encodeURIComponent` leaves a character as it is: ASCII letters,
/// digits and `- _ . ! ~ * ' ( )`.
pub open spec fn uri_unreserved(c: char) -> bool {
    ('a' <= c && c <= 'z') || ('A' <= c && c <= 'Z') || ('0' <= c && c <= '9')
        || c == '-' || c == '_' || c == '.' || c == '!' || c == '~' || c == '*'
        || c == '\'' || c == '(' || c == ')'
}

/// The UTF-8 bytes of a code point.
pub open spec fn utf8_bytes(cp: nat) -> Seq<nat> {
    if cp < 0x80 {
        seq![cp]
    } else if cp < 0x800 {
        seq![0xC0 + cp / 64, 0x80 + cp % 64]
    } else if cp < 0x10000 {
        seq![0xE0 + cp / 4096, 0x80 + (cp / 64) % 64, 0x80 + cp % 64]
    } else {
        seq![0xF0 + cp / 262144, 0x80 + (cp / 4096) % 64, 0x80 + (cp / 64) % 64, 0x80 + cp % 64]
    }
}

/// The upper-case hexadecimal digit of a value below 16.
pub open spec fn hex_digit(d: nat) -> char {
    if d < 10 { digit_char(d) }
    else if d == 10 { 'A' }
    else if d == 11 { 'B' }
    else if d == 12 { 'C' }
    else if d == 13 { 'D' }
    else if d == 14 { 'E' }
    else { 'F' }
}

/// Bytes written as `%XX` escapes.
pub open spec fn percent_escaped(bytes: Seq<nat>) -> Seq<char>
    decreases bytes.len(),
{
    if bytes.len() == 0 {
        Seq::empty()
    } else {
        percent_escaped(bytes.drop_last())
            + seq!['%', hex_digit(bytes.last() / 16), hex_digit(bytes.last() % 16)]
    }
}

/// What `encodeURIComponent` makes of one character.
pub open spec fn uri_encoded_char(c: char) -> Seq<char> {
    if uri_unreserved(c) {
        seq![c]
    } else {
        percent_escaped(utf8_bytes(c as nat))
    }
}

/// What `encodeURIComponent` makes of a text: each character that is not
/// unreserved is replaced by the `%XX` escapes of its UTF-8 bytes.
pub open spec fn uri_encoded(s: Seq<char>) -> Seq<char>
    decreases s.len(),
{
    if s.len() == 0 {
        Seq::empty()
    } else {
        uri_encoded(s.drop_last()) + uri_encoded_char(s.last())
    }
}

/// Whether a character is one that `encodeURIComponent` leaves as it is,
/// written out: an ASCII letter or digit, or one of `- _ . ! ~ * ' ( )`.
pub open spec fn left_unescaped(c: char) -> bool {
    ||| 'a' <= c && c <= 'z'
    ||| 'A' <= c && c <= 'Z'
    ||| '0' <= c && c <= '9'
    ||| c == '-' || c == '_' || c == '.' || c == '!' || c == '~'
    ||| c == '*' || c == '\'' || c == '(' || c == ')'
}

/// Encoding a text is encoding its parts one after the other.
pub proof fn lemma_uri_encoding_concatenates(s: Seq<char>, t: Seq<char>)
    ensures
        uri_encoded(s + t) == uri_encoded(s) + uri_encoded(t),
    decreases t.len(),
{
    if t.len() == 0 {
        assert(s + t =~= s);
        assert(uri_encoded(s) + uri_encoded(t) =~= uri_encoded(s));
    } else {
        lemma_uri_encoding_concatenates(s, t.drop_last());
        assert((s + t).drop_last() =~= s + t.drop_last());
        assert((s + t).last() == t.last());
        assert(uri_encoded(s) + uri_encoded(t) =~= uri_encoded(s) + uri_encoded(t.drop_last()) + uri_encoded_char(t.last()));
    }
}

/// How one character is encoded: an ASCII letter or digit or one of
/// `- _ . ! ~ * ' ( )` stays as it is; any other ASCII character becomes `%`
/// and its two upper-case hexadecimal digits (so `+` becomes `%2B` and a
/// space `%20`); any other character becomes one `%XX` per UTF-8 byte: two
/// below U+0800, three below U+10000, four above.
pub proof fn lemma_uri_encoding_of_a_character(c: char)
    ensures
        left_unescaped(c) ==> uri_encoded(seq![c]) == seq![c],
        !left_unescaped(c) && (c as nat) < 0x80 ==> uri_encoded(seq![c]) == seq![
            '%',
            "0123456789ABCDEF"@[(c as nat / 16) as int],
            "0123456789ABCDEF"@[(c as nat % 16) as int],
        ],
        !left_unescaped(c) ==> {
            let n: int = if (c as nat) < 0x80 { 1 } else if (c as nat) < 0x800 { 2 } else if (c as nat) < 0x10000 { 3 } else { 4 };
            &&& uri_encoded(seq![c]).len() == 3 * n
            &&& forall|k: int| 0 <= k < n ==> #[trigger] uri_encoded(seq![c])[3 * k] == '%'
        },
{
    reveal_strlit("0123456789ABCDEF");
    assert(seq![c].drop_last() =~= Seq::<char>::empty());
    assert(seq![c].last() == c);
    assert(uri_encoded(Seq::<char>::empty()) =~= Seq::<char>::empty());
    assert(uri_encoded(seq![c]) =~= uri_encoded_char(c));
    if !left_unescaped(c) {
        let cp = c as nat;
        let b = utf8_bytes(cp);
        if cp < 0x80 {
            assert(b =~= Seq::<nat>::empty().push(cp));
            lemma_percent_escaped_push(Seq::empty(), cp);
            let d1 = cp / 16;
            let d2 = cp % 16;
            assert(hex_digit(d1) == "0123456789ABCDEF"@[d1 as int]);
            assert(hex_digit(d2) == "0123456789ABCDEF"@[d2 as int]);
            assert(uri_encoded_char(c) =~= seq!['%', hex_digit(d1), hex_digit(d2)]);
        } else if cp < 0x800 {
            assert(seq![b[0]] =~= Seq::<nat>::empty().push(b[0]));
            assert(b =~= seq![b[0]].push(b[1]));
            lemma_percent_escaped_push(Seq::empty(), b[0]);
            lemma_percent_escaped_push(seq![b[0]], b[1]);
        } else if cp < 0x10000 {
            assert(seq![b[0]] =~= Seq::<nat>::empty().push(b[0]));
            assert(seq![b[0], b[1]] =~= seq![b[0]].push(b[1]));
            assert(b =~= seq![b[0], b[1]].push(b[2]));
            lemma_percent_escaped_push(Seq::empty(), b[0]);
            lemma_percent_escaped_push(seq![b[0]], b[1]);
            lemma_percent_escaped_push(seq![b[0], b[1]], b[2]);
        } else {
            assert(seq![b[0]] =~= Seq::<nat>::empty().push(b[0]));
            assert(seq![b[0], b[1]] =~= seq![b[0]].push(b[1]));
            assert(seq![b[0], b[1], b[2]] =~= seq![b[0], b[1]].push(b[2]));
            assert(b =~= seq![b[0], b[1], b[2]].push(b[3]));
            lemma_percent_escaped_push(Seq::empty(), b[0]);
            lemma_percent_escaped_push(seq![b[0]], b[1]);
            lemma_percent_escaped_push(seq![b[0], b[1]], b[2]);
            lemma_percent_escaped_push(seq![b[0], b[1], b[2]], b[3]);
        }
    }
}

fn push_hex_digit(s: &mut String, d: u32)
    requires
        d < 16,
    ensures
        final(s)@ == old(s)@.push(hex_digit(d as nat)),
{
    if d < 10 {
        push_digit(s, d as u64);
    } else {
        proof {
            reveal_strlit("A");
            reveal_strlit("B");
            reveal_strlit("C");
            reveal_strlit("D");
            reveal_strlit("E");
            reveal_strlit("F");
        }
        let ghost before = s@;
        if d == 10 { s.append("A"); }
        else if d == 11 { s.append("B"); }
        else if d == 12 { s.append("C"); }
        else if d == 13 { s.append("D"); }
        else if d == 14 { s.append("E"); }
        else { s.append("F"); }
        assert(s@ =~= before.push(hex_digit(d as nat)));
    }
}

fn push_escape(s: &mut String, b: u32)
    requires
        b < 256,
    ensures
        final(s)@ == old(s)@ + seq!['%', hex_digit(b as nat / 16), hex_digit(b as nat % 16)],
{
    proof {
        reveal_strlit("%");
    }
    let ghost before = s@;
    s.append("%");
    push_hex_digit(s, b / 16);
    push_hex_digit(s, b % 16);
    assert(s@ =~= before + seq!['%', hex_digit(b as nat / 16), hex_digit(b as nat % 16)]);
}

proof fn lemma_percent_escaped_push(bytes: Seq<nat>, b: nat)
    ensures
        percent_escaped(bytes.push(b)) == percent_escaped(bytes) + seq!['%', hex_digit(b / 16), hex_digit(b % 16)],
{
    assert(bytes.push(b).drop_last() =~= bytes);
}

/// Appends the `%XX` escapes of the UTF-8 bytes of a character.
fn push_escaped_char(s: &mut String, c: char)
    ensures
        final(s)@ == old(s)@ + percent_escaped(utf8_bytes(c as nat)),
{
    let ghost before = s@;
    let cp: u32 = c as u32;
    if cp < 0x80 {
        push_escape(s, cp);
        proof {
            assert(utf8_bytes(cp as nat) =~= Seq::<nat>::empty().push(cp as nat));
            lemma_percent_escaped_push(Seq::empty(), cp as nat);
        }
    } else if cp < 0x800 {
        push_escape(s, 0xC0 + cp / 64);
        push_escape(s, 0x80 + cp % 64);
        proof {
            let b = seq![0xC0 + cp as nat / 64, 0x80 + cp as nat % 64];
            assert(utf8_bytes(cp as nat) =~= b);
            lemma_percent_escaped_push(Seq::empty(), b[0]);
            assert(seq![b[0]] =~= Seq::<nat>::empty().push(b[0]));
            assert(b =~= seq![b[0]].push(b[1]));
            lemma_percent_escaped_push(seq![b[0]], b[1]);
        }
    } else if cp < 0x10000 {
        push_escape(s, 0xE0 + cp / 4096);
        push_escape(s, 0x80 + (cp / 64) % 64);
        push_escape(s, 0x80 + cp % 64);
        proof {
            let b = seq![0xE0 + cp as nat / 4096, 0x80 + (cp as nat / 64) % 64, 0x80 + cp as nat % 64];
            assert(utf8_bytes(cp as nat) =~= b);
            assert(seq![b[0]] =~= Seq::<nat>::empty().push(b[0]));
            assert(seq![b[0], b[1]] =~= seq![b[0]].push(b[1]));
            assert(b =~= seq![b[0], b[1]].push(b[2]));
            lemma_percent_escaped_push(Seq::empty(), b[0]);
            lemma_percent_escaped_push(seq![b[0]], b[1]);
            lemma_percent_escaped_push(seq![b[0], b[1]], b[2]);
        }
    } else {
        push_escape(s, 0xF0 + cp / 262144);
        push_escape(s, 0x80 + (cp / 4096) % 64);
        push_escape(s, 0x80 + (cp / 64) % 64);
        push_escape(s, 0x80 + cp % 64);
        proof {
            let b = seq![0xF0 + cp as nat / 262144, 0x80 + (cp as nat / 4096) % 64, 0x80 + (cp as nat / 64) % 64, 0x80 + cp as nat % 64];
            assert(utf8_bytes(cp as nat) =~= b);
            assert(seq![b[0]] =~= Seq::<nat>::empty().push(b[0]));
            assert(seq![b[0], b[1]] =~= seq![b[0]].push(b[1]));
            assert(seq![b[0], b[1], b[2]] =~= seq![b[0], b[1]].push(b[2]));
            assert(b =~= seq![b[0], b[1], b[2]].push(b[3]));
            lemma_percent_escaped_push(Seq::empty(), b[0]);
            lemma_percent_escaped_push(seq![b[0]], b[1]);
            lemma_percent_escaped_push(seq![b[0], b[1]], b[2]);
            lemma_percent_escaped_push(seq![b[0], b[1], b[2]], b[3]);
        }
    }
    assert(s@ =~= before + percent_escaped(utf8_bytes(c as nat)));
}

/// A text encoded as `encodeURIComponent` does.
pub fn encode_uri_component(text: &str) -> (encoded: String)
    ensures
        encoded@ == uri_encoded(text@),
{
    let n: usize = text.unicode_len();
    let mut encoded = String::new();
    let mut i: usize = 0;
    while i < n
        invariant
            n == text@.len(),
            i <= n,
            encoded@ == uri_encoded(text@.take(i as int)),
        decreases n - i,
    {
        let c = text.get_char(i);
        assert(text@.take(i + 1).drop_last() =~= text@.take(i as int));
        if ('a' <= c && c <= 'z') || ('A' <= c && c <= 'Z') || ('0' <= c && c <= '9')
            || c == '-' || c == '_' || c == '.' || c == '!' || c == '~' || c == '*'
            || c == '\'' || c == '(' || c == ')' {
            let one = text.substring_char(i, i + 1);
            assert(one@ =~= seq![c]);
            encoded.append(one);
        } else {
            push_escaped_char(&mut encoded, c);
        }
        i = i + 1;
    }
    assert(text@.take(n as int) =~= text@);
    encoded
}

} // verus!
