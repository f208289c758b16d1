//! Character-level helpers: whitespace, trimming and splitting, stated over
//! sequences of characters and computed on vectors of characters.
use vstd::prelude::*;
use vstd::slice::slice_index_get;
use vstd::string::StringSliceAdditionalSpecFns;
use vstd::utf8::encode_utf8_decode_utf8;

verus! {

/// Whether `c` has the Unicode property White_Space.
pub open spec fn is_space(c: char) -> bool {
    let u = c as u32;
    (0x09 <= u <= 0x0D) || u == 0x20 || u == 0x85 || u == 0xA0 || u == 0x1680 || (0x2000 <= u
        <= 0x200A) || u == 0x2028 || u == 0x2029 || u == 0x202F || u == 0x205F || u == 0x3000
}

/// The index of the first character at or after `from` that is no white space,
/// or the length of `s` when there is none.
pub open spec fn first_non_space(s: Seq<char>, from: int) -> int
    decreases s.len() - from,
{
    if from < 0 || from >= s.len() {
        s.len() as int
    } else if !is_space(s[from]) {
        from
    } else {
        first_non_space(s, from + 1)
    }
}

/// The end of the last run of characters before `to` that ends in a character
/// that is no white space, or 0 when there is none.
pub open spec fn last_non_space_end(s: Seq<char>, to: int) -> int
    decreases to,
{
    if to <= 0 || to > s.len() {
        0
    } else if !is_space(s[to - 1]) {
        to
    } else {
        last_non_space_end(s, to - 1)
    }
}

/// `s` without its leading and trailing white space.
pub open spec fn trim(s: Seq<char>) -> Seq<char> {
    let a = first_non_space(s, 0);
    let b = last_non_space_end(s, s.len() as int);
    if a >= b {
        Seq::empty()
    } else {
        s.subrange(a, b)
    }
}

/// The pieces of `s` between occurrences of `sep`, reading from `i` with the
/// current piece begun at `start`.
pub open spec fn split_scan(s: Seq<char>, sep: char, start: int, i: int) -> Seq<Seq<char>>
    decreases s.len() - i,
{
    if i < start || start < 0 {
        Seq::empty()
    } else if i >= s.len() {
        seq![s.subrange(start, s.len() as int)]
    } else if s[i] == sep {
        seq![s.subrange(start, i)] + split_scan(s, sep, i + 1, i + 1)
    } else {
        split_scan(s, sep, start, i + 1)
    }
}

/// The pieces of `s` between occurrences of `sep`; always at least one piece.
pub open spec fn split(s: Seq<char>, sep: char) -> Seq<Seq<char>> {
    split_scan(s, sep, 0, 0)
}

/// The maximal runs of characters that are no white space, reading from `i`;
/// `start` is where the current run began, or -1 between runs.
pub open spec fn words_scan(s: Seq<char>, start: int, i: int) -> Seq<Seq<char>>
    decreases s.len() - i,
{
    if i < 0 || start > i {
        Seq::empty()
    } else if i >= s.len() {
        if start >= 0 {
            seq![s.subrange(start, s.len() as int)]
        } else {
            Seq::empty()
        }
    } else if is_space(s[i]) {
        if start >= 0 {
            seq![s.subrange(start, i)] + words_scan(s, -1, i + 1)
        } else {
            words_scan(s, -1, i + 1)
        }
    } else {
        words_scan(
            s,
            if start >= 0 {
                start
            } else {
                i
            },
            i + 1,
        )
    }
}

/// The maximal runs of characters of `s` that are no white space.
pub open spec fn words(s: Seq<char>) -> Seq<Seq<char>> {
    words_scan(s, -1, 0)
}

/// The character sequences that the vectors of `pieces` hold.
pub open spec fn pieces_view(pieces: Seq<Vec<char>>) -> Seq<Seq<char>> {
    Seq::new(pieces.len(), |i: int| pieces[i]@)
}

/// The character sequences that the strings of `list` hold.
pub open spec fn strings_view(list: Seq<String>) -> Seq<Seq<char>> {
    Seq::new(list.len(), |i: int| list[i]@)
}

/// Each piece of `pieces` trimmed.
pub open spec fn trim_each(pieces: Seq<Seq<char>>) -> Seq<Seq<char>> {
    Seq::new(pieces.len(), |i: int| trim(pieces[i]))
}

/// The pieces with `sep` between each two of them.
pub open spec fn join(pieces: Seq<Seq<char>>, sep: char) -> Seq<char>
    decreases pieces.len(),
{
    if pieces.len() == 0 {
        Seq::empty()
    } else if pieces.len() == 1 {
        pieces[0]
    } else {
        pieces[0] + seq![sep] + join(pieces.drop_first(), sep)
    }
}

/// What `first_non_space` gives lies at or behind `from`, all between is
/// white space, and the character there is none.
pub proof fn lemma_first_non_space(s: Seq<char>, from: int)
    requires
        0 <= from <= s.len(),
    ensures
        from <= first_non_space(s, from) <= s.len(),
        forall|j: int| from <= j < first_non_space(s, from) ==> is_space(#[trigger] s[j]),
        first_non_space(s, from) < s.len() ==> !is_space(s[first_non_space(s, from)]),
    decreases s.len() - from,
{
    if from < s.len() && is_space(s[from]) {
        lemma_first_non_space(s, from + 1);
    }
}

/// What `last_non_space_end` gives lies at or before `to`, all between is
/// white space, and the character before it is none.
pub proof fn lemma_last_non_space_end(s: Seq<char>, to: int)
    requires
        0 <= to <= s.len(),
    ensures
        0 <= last_non_space_end(s, to) <= to,
        forall|j: int| last_non_space_end(s, to) <= j < to ==> is_space(#[trigger] s[j]),
        last_non_space_end(s, to) > 0 ==> !is_space(s[last_non_space_end(s, to) - 1]),
    decreases to,
{
    if to > 0 && is_space(s[to - 1]) {
        lemma_last_non_space_end(s, to - 1);
    }
}

/// Trimming takes white space away at both ends and nothing else: what is
/// left stands in `s` between two places, all before the first and all from
/// the second on is white space, and what is left neither begins nor ends
/// with white space.
pub proof fn lemma_trim(s: Seq<char>)
    ensures
        exists|a: int, b: int|
            {
                &&& 0 <= a <= b <= s.len()
                &&& #[trigger] s.subrange(a, b) == trim(s)
                &&& forall|j: int| 0 <= j < a ==> is_space(#[trigger] s[j])
                &&& forall|j: int| b <= j < s.len() ==> is_space(#[trigger] s[j])
                &&& a < b ==> !is_space(s[a]) && !is_space(s[b - 1])
            },
{
    let a = first_non_space(s, 0);
    let b = last_non_space_end(s, s.len() as int);
    lemma_first_non_space(s, 0);
    lemma_last_non_space_end(s, s.len() as int);
    if a >= b {
        // Nothing but white space is left of `s`: were `s[a]` a character
        // of `s`, it would be no white space, and `b` would lie behind it.
        assert(s.subrange(a, a) =~= trim(s));
        if a < s.len() {
            assert(!is_space(s[a]));
            assert(is_space(s[a]));
        }
    } else {
        assert(s.subrange(a, b) == trim(s));
    }
}

/// Trimming what is already trimmed changes nothing.
pub proof fn lemma_trim_twice(s: Seq<char>)
    ensures
        trim(trim(s)) == trim(s),
{
    let t = trim(s);
    lemma_trim(s);
    lemma_first_non_space(t, 0);
    lemma_last_non_space_end(t, t.len() as int);
    if t.len() > 0 {
        let (a, b) = choose|a: int, b: int|
            {
                &&& 0 <= a <= b <= s.len()
                &&& #[trigger] s.subrange(a, b) == trim(s)
                &&& forall|j: int| 0 <= j < a ==> is_space(#[trigger] s[j])
                &&& forall|j: int| b <= j < s.len() ==> is_space(#[trigger] s[j])
                &&& a < b ==> !is_space(s[a]) && !is_space(s[b - 1])
            };
        assert(t[0] == s[a]);
        assert(t[t.len() - 1] == s[b - 1]);
        assert(first_non_space(t, 0) == 0);
        assert(last_non_space_end(t, t.len() as int) == t.len());
        assert(t.subrange(0, t.len() as int) =~= t);
    } else {
        assert(trim(t) =~= t);
    }
}

/// The pieces that a scan gives, joined by the separator, are the text
/// from where the current piece began; no piece holds the separator; and there
/// is at least one piece.
pub proof fn lemma_split_scan(s: Seq<char>, sep: char, start: int, i: int)
    requires
        0 <= start <= i <= s.len(),
        forall|j: int| start <= j < i ==> s[j] != sep,
    ensures
        split_scan(s, sep, start, i).len() >= 1,
        join(split_scan(s, sep, start, i), sep) == s.subrange(start, s.len() as int),
        forall|k: int|
            0 <= k < split_scan(s, sep, start, i).len() ==> !(#[trigger] split_scan(
                s,
                sep,
                start,
                i,
            )[k]).contains(sep),
    decreases s.len() - i,
{
    let pieces = split_scan(s, sep, start, i);
    if i >= s.len() {
        let piece = s.subrange(start, s.len() as int);
        assert(pieces =~= seq![piece]);
        assert(!piece.contains(sep)) by {
            if piece.contains(sep) {
                let j = choose|j: int| 0 <= j < piece.len() && piece[j] == sep;
                assert(s[start + j] == sep);
            }
        }
    } else if s[i] == sep {
        lemma_split_scan(s, sep, i + 1, i + 1);
        let piece = s.subrange(start, i);
        let rest = split_scan(s, sep, i + 1, i + 1);
        assert(pieces =~= seq![piece] + rest);
        assert(pieces.drop_first() =~= rest);
        assert(pieces[0] == piece);
        assert(join(pieces, sep) =~= s.subrange(start, s.len() as int));
        assert(!piece.contains(sep)) by {
            if piece.contains(sep) {
                let j = choose|j: int| 0 <= j < piece.len() && piece[j] == sep;
                assert(s[start + j] == sep);
            }
        }
        assert forall|k: int| 0 <= k < pieces.len() implies !(#[trigger] pieces[k]).contains(
            sep,
        ) by {
            if k > 0 {
                assert(pieces[k] == rest[k - 1]);
            }
        }
    } else {
        lemma_split_scan(s, sep, start, i + 1);
    }
}

/// Splitting loses nothing: the pieces joined by the separator are the
/// text, no piece holds the separator, and there is at least one piece.
pub proof fn lemma_split(s: Seq<char>, sep: char)
    ensures
        split(s, sep).len() >= 1,
        join(split(s, sep), sep) == s,
        forall|k: int| 0 <= k < split(s, sep).len() ==> !(#[trigger] split(s, sep)[k]).contains(sep),
{
    lemma_split_scan(s, sep, 0, 0);
    assert(s.subrange(0, s.len() as int) =~= s);
}

/// A word: at least one character, and no white space.
pub open spec fn is_word(w: Seq<char>) -> bool {
    w.len() > 0 && forall|j: int| 0 <= j < w.len() ==> !is_space(#[trigger] w[j])
}

/// Every word that a scan gives holds a character and no white space.
pub proof fn lemma_words_scan(s: Seq<char>, start: int, i: int)
    requires
        0 <= i <= s.len(),
        start == -1 || (0 <= start < i && forall|j: int| start <= j < i ==> !is_space(s[j])),
    ensures
        forall|k: int|
            0 <= k < words_scan(s, start, i).len() ==> is_word(#[trigger] words_scan(s, start, i)[k]),
    decreases s.len() - i,
{
    let ws = words_scan(s, start, i);
    if i >= s.len() {
        if start >= 0 {
            let w = s.subrange(start, s.len() as int);
            assert(ws =~= seq![w]);
            assert(is_word(w)) by {
                assert forall|j: int| 0 <= j < w.len() implies !is_space(#[trigger] w[j]) by {
                    assert(w[j] == s[start + j]);
                }
            }
            assert(ws[0] == w);
        }
    } else if is_space(s[i]) {
        lemma_words_scan(s, -1, i + 1);
        let rest = words_scan(s, -1, i + 1);
        if start >= 0 {
            let w = s.subrange(start, i);
            assert(ws =~= seq![w] + rest);
            assert(is_word(w)) by {
                assert forall|j: int| 0 <= j < w.len() implies !is_space(#[trigger] w[j]) by {
                    assert(w[j] == s[start + j]);
                }
            }
            assert forall|k: int| 0 <= k < ws.len() implies is_word(#[trigger] ws[k]) by {
                if k > 0 {
                    assert(ws[k] == rest[k - 1]);
                } else {
                    assert(ws[0] == w);
                }
            }
        } else {
            assert(ws == rest);
        }
    } else {
        let from = if start >= 0 {
            start
        } else {
            i
        };
        lemma_words_scan(s, from, i + 1);
        assert(ws == words_scan(s, from, i + 1));
    }
}

/// Every word of a text holds a character and no white space.
pub proof fn lemma_words(s: Seq<char>)
    ensures
        forall|k: int| 0 <= k < words(s).len() ==> is_word(#[trigger] words(s)[k]),
{
    lemma_words_scan(s, -1, 0);
}

/// Whether `c` has the Unicode property White_Space.
pub fn is_space_char(c: char) -> (b: bool)
    ensures
        b == is_space(c),
{
    let u: u32 = c as u32;
    (0x09 <= u && u <= 0x0D) || u == 0x20 || u == 0x85 || u == 0xA0 || u == 0x1680 || (0x2000
        <= u && u <= 0x200A) || u == 0x2028 || u == 0x2029 || u == 0x202F || u == 0x205F || u
        == 0x3000
}

/// The characters of `s`, in order.
pub fn chars_of(s: &str) -> (v: Vec<char>)
    ensures
        v@ == s@,
{
    let mut v: Vec<char> = Vec::new();
    for c in it: s.chars()
        invariant
            v@ == it.seq().take(it.index() as int),
            it.seq() == s@,
    {
        v.push(c);
    }
    v
}

/// Calls `String::from_iter` on the characters of `v`: the string holds
/// exactly these characters, in order.
#[verifier::external_body]
pub(crate) fn string_of(v: &Vec<char>) -> (s: String)
    ensures
        s@ == v@,
{
    String::from_iter(v.iter())
}

/// Whether two strings hold the same characters.
pub fn str_eq(a: &str, b: &str) -> (r: bool)
    ensures
        r == (a@ == b@),
{
    let x = a.as_bytes();
    let y = b.as_bytes();
    proof {
        encode_utf8_decode_utf8(a@);
        encode_utf8_decode_utf8(b@);
    }
    if x.len() != y.len() {
        return false;
    }
    let mut i: usize = 0;
    while i < x.len()
        invariant
            i <= x.len(),
            x.len() == y.len(),
            x@ == a.spec_bytes(),
            y@ == b.spec_bytes(),
            forall|j: int| 0 <= j < i ==> x@[j] == y@[j],
        decreases x.len() - i,
    {
        if *slice_index_get(x, i) != *slice_index_get(y, i) {
            return false;
        }
        i += 1;
    }
    assert(x@ =~= y@);
    true
}

/// Whether `v` holds the character `c`.
pub fn contains_char(v: &Vec<char>, c: char) -> (r: bool)
    ensures
        r == v@.contains(c),
{
    let mut i: usize = 0;
    while i < v.len()
        invariant
            i <= v.len(),
            forall|j: int| 0 <= j < i ==> v@[j] != c,
        decreases v.len() - i,
    {
        if v[i] == c {
            return true;
        }
        i += 1;
    }
    false
}

/// A copy of the characters of `v` from `a` up to `b`.
pub fn sub_chars(v: &Vec<char>, a: usize, b: usize) -> (r: Vec<char>)
    requires
        a <= b <= v.len(),
    ensures
        r@ == v@.subrange(a as int, b as int),
{
    let mut r: Vec<char> = Vec::new();
    let mut i: usize = a;
    while i < b
        invariant
            a <= i <= b <= v.len(),
            r@ == v@.subrange(a as int, i as int),
        decreases b - i,
    {
        r.push(v[i]);
        assert(r@ =~= v@.subrange(a as int, i + 1));
        i += 1;
    }
    assert(r@ =~= v@.subrange(a as int, b as int));
    r
}

/// `v` without its leading and trailing white space.
pub fn trim_chars(v: &Vec<char>) -> (r: Vec<char>)
    ensures
        r@ == trim(v@),
{
    let n = v.len();
    let mut a: usize = 0;
    while a < n && is_space_char(v[a])
        invariant
            a <= n,
            n == v.len(),
            first_non_space(v@, 0) == first_non_space(v@, a as int),
        decreases n - a,
    {
        a += 1;
    }
    let mut b: usize = n;
    while b > 0 && is_space_char(v[b - 1])
        invariant
            b <= n,
            n == v.len(),
            last_non_space_end(v@, n as int) == last_non_space_end(v@, b as int),
        decreases b,
    {
        b -= 1;
    }
    if a >= b {
        Vec::new()
    } else {
        sub_chars(v, a, b)
    }
}

/// The pieces of `v` between occurrences of `sep`.
pub fn split_chars(v: &Vec<char>, sep: char) -> (r: Vec<Vec<char>>)
    ensures
        pieces_view(r@) == split(v@, sep),
{
    let n = v.len();
    let mut r: Vec<Vec<char>> = Vec::new();
    let mut start: usize = 0;
    let mut i: usize = 0;
    while i < n
        invariant
            start <= i <= n,
            n == v.len(),
            split(v@, sep) == pieces_view(r@) + split_scan(v@, sep, start as int, i as int),
        decreases n - i,
    {
        if v[i] == sep {
            let piece = sub_chars(v, start, i);
            let ghost before = pieces_view(r@);
            r.push(piece);
            assert(pieces_view(r@) =~= before + seq![v@.subrange(start as int, i as int)]);
            start = i + 1;
        }
        i += 1;
    }
    let piece = sub_chars(v, start, n);
    let ghost before = pieces_view(r@);
    r.push(piece);
    assert(pieces_view(r@) =~= before + seq![v@.subrange(start as int, n as int)]);
    r
}

/// The maximal runs of characters of `v` that are no white space.
pub fn words_of(v: &Vec<char>) -> (r: Vec<Vec<char>>)
    ensures
        pieces_view(r@) == words(v@),
{
    let n = v.len();
    let mut r: Vec<Vec<char>> = Vec::new();
    let mut in_word: bool = false;
    let mut start: usize = 0;
    let mut i: usize = 0;
    while i < n
        invariant
            start <= i <= n,
            n == v.len(),
            words(v@) == pieces_view(r@) + words_scan(
                v@,
                if in_word {
                    start as int
                } else {
                    -1
                },
                i as int,
            ),
        decreases n - i,
    {
        if is_space_char(v[i]) {
            if in_word {
                let piece = sub_chars(v, start, i);
                let ghost before = pieces_view(r@);
                r.push(piece);
                assert(pieces_view(r@) =~= before + seq![v@.subrange(start as int, i as int)]);
                in_word = false;
            }
        } else if !in_word {
            in_word = true;
            start = i;
        }
        i += 1;
    }
    if in_word {
        let piece = sub_chars(v, start, n);
        let ghost before = pieces_view(r@);
        r.push(piece);
        assert(pieces_view(r@) =~= before + seq![v@.subrange(start as int, n as int)]);
    }
    r
}

} // verus!
