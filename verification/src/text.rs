use vstd::prelude::*;
use vstd::string::*;

verus! {

broadcast use vstd::string::group_string_axioms;

/// The characters of `s`, in order.
pub fn chars_of(s: &str) -> (r: Vec<char>)
    ensures
        r@ == s@,
{
    let mut r: Vec<char> = Vec::new();
    for c in it: s.chars()
        invariant
            it.seq() == s@,
            r@ == it.seq().take(it.index()),
    {
        proof {
            assert(it.seq().take(it.index() + 1) =~= it.seq().take(it.index()).push(c));
        }
        r.push(c);
    }
    proof {
        assert(r@ =~= s@);
    }
    r
}


/// The pieces of `s` between occurrences of `sep`, empty pieces included, as
/// `str::split` yields them for a one-character pattern.
pub open spec fn split_on(s: Seq<char>, sep: char) -> Seq<Seq<char>>
    decreases s.len(),
{
    if s.len() == 0 {
        seq![Seq::<char>::empty()]
    } else {
        let rest = split_on(s.drop_last(), sep);
        if s.last() == sep {
            rest.push(Seq::<char>::empty())
        } else {
            rest.update(rest.len() - 1, rest.last().push(s.last()))
        }
    }
}

/// A text without the separator is a single piece, and a text that splits
/// into a single piece holds no separator.
pub proof fn lemma_split_on_single(s: Seq<char>, sep: char)
    ensures
        split_on(s, sep).len() >= 1,
        (split_on(s, sep).len() == 1) == !s.contains(sep),
        !s.contains(sep) ==> split_on(s, sep) == seq![s],
    decreases s.len(),
{
    if s.len() > 0 {
        let t = s.drop_last();
        lemma_split_on_single(t, sep);
        if s.last() == sep {
            assert(s[s.len() - 1] == sep);
        } else {
            assert(s.contains(sep) == t.contains(sep)) by {
                if s.contains(sep) {
                    let k = choose|k: int| 0 <= k < s.len() && s[k] == sep;
                    assert(t[k] == sep);
                }
                if t.contains(sep) {
                    let k = choose|k: int| 0 <= k < t.len() && t[k] == sep;
                    assert(s[k] == sep);
                }
            }
            if !s.contains(sep) {
                assert(t.push(s.last()) =~= s);
                assert(split_on(s, sep) =~= seq![s]);
            }
        }
    } else {
        assert(s =~= Seq::<char>::empty());
    }
}

/// The text that a list of index ranges selects from `s`.
pub open spec fn pieces(s: Seq<char>, ranges: Seq<(usize, usize)>) -> Seq<Seq<char>> {
    ranges.map_values(|r: (usize, usize)| s.subrange(r.0 as int, r.1 as int))
}

/// The ranges of the pieces of `cs[a..b]` between occurrences of `sep`.
pub fn split_ranges(cs: &Vec<char>, a: usize, b: usize, sep: char) -> (r: Vec<(usize, usize)>)
    requires
        a <= b <= cs@.len(),
    ensures
        r@.len() >= 1,
        forall|k: int| 0 <= k < r@.len() ==> a <= #[trigger] r@[k].0 <= r@[k].1 <= b,
        pieces(cs@, r@) == split_on(cs@.subrange(a as int, b as int), sep),
{
    let ghost s = cs@.subrange(a as int, b as int);
    let mut done: Vec<(usize, usize)> = Vec::new();
    let mut start: usize = a;
    let mut i: usize = a;
    proof {
        assert(s.take(0) =~= Seq::<char>::empty());
        assert(pieces(cs@, done@) =~= Seq::<Seq<char>>::empty());
        assert(cs@.subrange(a as int, a as int) =~= Seq::<char>::empty());
        assert(split_on(Seq::<char>::empty(), sep) =~= Seq::<Seq<char>>::empty().push(
            Seq::<char>::empty(),
        ));
    }
    while i < b
        invariant
            a <= start <= i <= b <= cs@.len(),
            s == cs@.subrange(a as int, b as int),
            forall|k: int| 0 <= k < done@.len() ==> a <= #[trigger] done@[k].0 <= done@[k].1 <= start,
            split_on(s.take(i - a), sep) == pieces(cs@, done@).push(
                cs@.subrange(start as int, i as int),
            ),
        decreases b - i,
    {
        let c = cs[i];
        proof {
            assert(s.take(i - a + 1).drop_last() =~= s.take(i - a));
            assert(s.take(i - a + 1).last() == c);
        }
        if c == sep {
            proof {
                assert(pieces(cs@, done@.push((start, i))) =~= pieces(cs@, done@).push(
                    cs@.subrange(start as int, i as int),
                ));
                assert(cs@.subrange((i + 1) as int, (i + 1) as int) =~= Seq::<char>::empty());
            }
            done.push((start, i));
            start = i + 1;
        } else {
            proof {
                assert(cs@.subrange(start as int, i + 1) =~= cs@.subrange(start as int, i as int).push(
                    c,
                ));
                assert(pieces(cs@, done@).push(cs@.subrange(start as int, i as int)).update(
                    done@.len() as int,
                    cs@.subrange(start as int, i + 1),
                ) =~= pieces(cs@, done@).push(cs@.subrange(start as int, i + 1)));
            }
        }
        i = i + 1;
    }
    proof {
        assert(s.take(b - a) =~= s);
        assert(pieces(cs@, done@.push((start, i))) =~= pieces(cs@, done@).push(
            cs@.subrange(start as int, i as int),
        ));
    }
    done.push((start, i));
    done
}

/// Whether `cs[a..b]` is the text `key`.
pub fn range_equals(cs: &Vec<char>, a: usize, b: usize, key: &Vec<char>) -> (r: bool)
    requires
        a <= b <= cs@.len(),
    ensures
        r == (cs@.subrange(a as int, b as int) == key@),
{
    if b - a != key.len() {
        return false;
    }
    let mut k: usize = 0;
    while k < key.len()
        invariant
            b - a == key@.len(),
            a <= b <= cs@.len(),
            0 <= k <= key@.len(),
            forall|j: int| 0 <= j < k ==> cs@[a + j] == key@[j],
        decreases key@.len() - k,
    {
        if cs[a + k] != key[k] {
            assert(cs@.subrange(a as int, b as int)[k as int] != key@[k as int]);
            return false;
        }
        k = k + 1;
    }
    assert(cs@.subrange(a as int, b as int) =~= key@);
    true
}

/// Whether two texts are equal.
pub fn str_equals(x: &str, y: &str) -> (r: bool)
    ensures
        r == (x@ == y@),
{
    let xs = chars_of(x);
    let ys = chars_of(y);
    proof {
        assert(xs@.subrange(0, xs@.len() as int) =~= xs@);
    }
    range_equals(&xs, 0, xs.len(), &ys)
}

/// Whether `c` has the Unicode `White_Space` property, the test that
/// `char::is_whitespace` and `str::trim` use: the controls U+0009 to U+000D,
/// the space, U+0085, the no-break space, the Ogham space mark, the spaces
/// U+2000 to U+200A, the line and paragraph separators, the narrow no-break
/// space, the medium mathematical space and the ideographic space.
pub open spec fn white_space(c: char) -> bool {
    ||| '\u{9}' <= c <= '\u{d}'
    ||| c == ' '
    ||| c == '\u{85}'
    ||| c == '\u{a0}'
    ||| c == '\u{1680}'
    ||| '\u{2000}' <= c <= '\u{200a}'
    ||| c == '\u{2028}'
    ||| c == '\u{2029}'
    ||| c == '\u{202f}'
    ||| c == '\u{205f}'
    ||| c == '\u{3000}'
}

/// Whether `c` is whitespace.
pub fn is_whitespace(c: char) -> (r: bool)
    ensures
        r == white_space(c),
{
    ('\u{9}' <= c && c <= '\u{d}') || c == ' ' || c == '\u{85}' || c == '\u{a0}' || c
        == '\u{1680}' || ('\u{2000}' <= c && c <= '\u{200a}') || c == '\u{2028}' || c
        == '\u{2029}' || c == '\u{202f}' || c == '\u{205f}' || c == '\u{3000}'
}

/// `s` without its leading whitespace.
pub open spec fn trim_start(s: Seq<char>) -> Seq<char>
    decreases s.len(),
{
    if s.len() > 0 && white_space(s[0]) {
        trim_start(s.drop_first())
    } else {
        s
    }
}

/// `s` without its trailing whitespace.
pub open spec fn trim_end(s: Seq<char>) -> Seq<char>
    decreases s.len(),
{
    if s.len() > 0 && white_space(s.last()) {
        trim_end(s.drop_last())
    } else {
        s
    }
}

/// `s` without leading and trailing whitespace, as `str::trim` gives it.
pub open spec fn trim(s: Seq<char>) -> Seq<char> {
    trim_end(trim_start(s))
}

/// The range of `cs[a..b]` that remains once leading and trailing whitespace
/// are removed.
pub fn trim_range(cs: &Vec<char>, a: usize, b: usize) -> (r: (usize, usize))
    requires
        a <= b <= cs@.len(),
    ensures
        a <= r.0 <= r.1 <= b,
        cs@.subrange(r.0 as int, r.1 as int) == trim(cs@.subrange(a as int, b as int)),
{
    let mut i = a;
    while i < b && is_whitespace(cs[i])
        invariant
            a <= i <= b <= cs@.len(),
            trim_start(cs@.subrange(a as int, b as int)) == trim_start(
                cs@.subrange(i as int, b as int),
            ),
        decreases b - i,
    {
        proof {
            assert(cs@.subrange(i as int, b as int).drop_first() =~= cs@.subrange(i + 1, b as int));
        }
        i = i + 1;
    }
    let mut j = b;
    while j > i && is_whitespace(cs[j - 1])
        invariant
            a <= i <= j <= b <= cs@.len(),
            trim_end(cs@.subrange(i as int, b as int)) == trim_end(cs@.subrange(i as int, j as int)),
        decreases j - i,
    {
        proof {
            assert(cs@.subrange(i as int, j as int).drop_last() =~= cs@.subrange(i as int, j - 1));
        }
        j = j - 1;
    }
    (i, j)
}

/// The string made of `cs[a..b]`.
pub fn string_of(cs: &Vec<char>, a: usize, b: usize) -> (r: String)
    requires
        a <= b <= cs@.len(),
    ensures
        r@ == cs@.subrange(a as int, b as int),
{
    let mut r = String::new();
    let mut k = a;
    while k < b
        invariant
            a <= k <= b <= cs@.len(),
            r@ == cs@.subrange(a as int, k as int),
        decreases b - k,
    {
        proof {
            assert(cs@.subrange(a as int, k + 1) =~= cs@.subrange(a as int, k as int).push(cs@[k as int]));
        }
        push_char(&mut r, cs[k]);
        k = k + 1;
    }
    r
}

/// `String::push`: appends `c` to the end of `s`.
#[verifier::external_body]
fn push_char(s: &mut String, c: char)
    ensures
        final(s)@ == old(s)@.push(c),
{
    s.push(c);
}

/// `s` with whitespace removed at both ends.
pub fn trimmed(s: &str) -> (r: String)
    ensures
        r@ == trim(s@),
{
    let cs = chars_of(s);
    let (a, b) = trim_range(&cs, 0, cs.len());
    proof {
        assert(cs@.subrange(0, cs@.len() as int) =~= cs@);
    }
    string_of(&cs, a, b)
}

/// `c` mapped to lower case if it is an ASCII upper-case letter, else `c`.
pub open spec fn ascii_lower(c: char) -> char {
    if 'A' <= c <= 'Z' {
        ((c as int) + 32) as char
    } else {
        c
    }
}

/// `c` mapped to lower case if it is an ASCII upper-case letter.
fn lower_char(c: char) -> (r: char)
    ensures
        r == ascii_lower(c),
{
    if 'A' <= c && c <= 'Z' {
        let b = (c as u8) + 32;
        assert(b as int == (c as int) + 32);
        b as char
    } else {
        c
    }
}

/// A copy of `s` in which each ASCII upper-case letter is replaced by its
/// lower-case form and every other character is kept.
pub fn to_ascii_lowercase(s: &str) -> (r: String)
    ensures
        r@ == s@.map_values(|c: char| ascii_lower(c)),
{
    let cs = chars_of(s);
    let mut r = String::new();
    let mut k: usize = 0;
    while k < cs.len()
        invariant
            0 <= k <= cs@.len(),
            cs@ == s@,
            r@ == cs@.take(k as int).map_values(|c: char| ascii_lower(c)),
        decreases cs@.len() - k,
    {
        proof {
            assert(cs@.take(k + 1) =~= cs@.take(k as int).push(cs@[k as int]));
            assert(cs@.take(k + 1).map_values(|c: char| ascii_lower(c)) =~= cs@.take(
                k as int,
            ).map_values(|c: char| ascii_lower(c)).push(ascii_lower(cs@[k as int])));
        }
        push_char(&mut r, lower_char(cs[k]));
        k = k + 1;
    }
    proof {
        assert(cs@.take(cs@.len() as int) =~= cs@);
    }
    r
}

/// A vector of strings with the texts of `parts`.
pub fn strings(parts: Vec<&str>) -> (r: Vec<String>)
    ensures
        r@.len() == parts@.len(),
        forall|j: int| 0 <= j < parts@.len() ==> #[trigger] r@[j]@ == parts@[j]@,
{
    let mut r: Vec<String> = Vec::new();
    let mut k: usize = 0;
    while k < parts.len()
        invariant
            0 <= k <= parts@.len(),
            r@.len() == k,
            forall|j: int| 0 <= j < k ==> #[trigger] r@[j]@ == parts@[j]@,
        decreases parts@.len() - k,
    {
        let t = String::from_str(parts[k]);
        r.push(t);
        k = k + 1;
    }
    r
}

/// The text of an optional string.
pub open spec fn opt_text(o: Option<String>) -> Option<Seq<char>> {
    match o {
        Some(s) => Some(s@),
        None => None,
    }
}

/// Removing leading whitespace keeps a suffix that does not start with
/// whitespace.
proof fn lemma_trim_start(s: Seq<char>)
    ensures
        trim_start(s).len() <= s.len(),
        trim_start(s) == s.subrange(s.len() - trim_start(s).len(), s.len() as int),
        trim_start(s).len() > 0 ==> !white_space(trim_start(s)[0]),
    decreases s.len(),
{
    if s.len() > 0 && white_space(s[0]) {
        lemma_trim_start(s.drop_first());
        let r = trim_start(s.drop_first());
        assert(s.drop_first().subrange(s.len() - 1 - r.len(), s.len() - 1) =~= s.subrange(
            s.len() - r.len(),
            s.len() as int,
        ));
    } else {
        assert(s.subrange(0, s.len() as int) =~= s);
    }
}

/// Removing trailing whitespace keeps a prefix that does not end with
/// whitespace.
proof fn lemma_trim_end(s: Seq<char>)
    ensures
        trim_end(s).len() <= s.len(),
        trim_end(s) == s.subrange(0, trim_end(s).len() as int),
        trim_end(s).len() > 0 ==> !white_space(trim_end(s).last()),
    decreases s.len(),
{
    if s.len() > 0 && white_space(s.last()) {
        lemma_trim_end(s.drop_last());
        let r = trim_end(s.drop_last());
        assert(s.drop_last().subrange(0, r.len() as int) =~= s.subrange(0, r.len() as int));
    } else {
        assert(s.subrange(0, s.len() as int) =~= s);
    }
}

/// A trimmed text neither starts nor ends with whitespace, lies within the
/// original text, and trimming it again changes nothing.
pub proof fn law_trim_clean(s: Seq<char>)
    ensures
        trim(s).len() > 0 ==> !white_space(trim(s)[0]) && !white_space(trim(s).last()),
        trim(s).len() <= s.len(),
        trim(trim(s)) == trim(s),
{
    let t = trim_start(s);
    lemma_trim_start(s);
    lemma_trim_end(t);
    let r = trim_end(t);
    if r.len() > 0 {
        assert(r[0] == t[0]);
    }
    assert(trim_start(r) == r);
    assert(trim_end(r) == r);
}

/// A separator followed by text without separators adds that text as one
/// more piece: the pieces of `x`, then `b`.
pub proof fn lemma_split_on_append(x: Seq<char>, sep: char, b: Seq<char>)
    requires
        !b.contains(sep),
    ensures
        split_on(x.push(sep) + b, sep) == split_on(x, sep).push(b),
    decreases b.len(),
{
    let s = x.push(sep) + b;
    if b.len() == 0 {
        assert(s =~= x.push(sep));
        assert(s.drop_last() =~= x);
        assert(s.last() == sep);
        assert(b =~= Seq::<char>::empty());
        assert(split_on(s, sep) == split_on(x, sep).push(Seq::<char>::empty()));
    } else {
        let bd = b.drop_last();
        assert(!bd.contains(sep)) by {
            if bd.contains(sep) {
                let k = choose|k: int| 0 <= k < bd.len() && bd[k] == sep;
                assert(b[k] == sep);
            }
        }
        lemma_split_on_append(x, sep, bd);
        assert(s.drop_last() =~= x.push(sep) + bd);
        assert(s.last() == b.last());
        assert(b.last() != sep) by {
            assert(b[b.len() - 1] == b.last());
        }
        lemma_split_on_nonempty_pieces(x, sep);
        assert(bd.push(b.last()) =~= b);
        assert(split_on(s, sep) =~= split_on(x, sep).push(b));
    }
}

/// Splitting gives at least one piece.
proof fn lemma_split_on_nonempty_pieces(s: Seq<char>, sep: char)
    ensures
        split_on(s, sep).len() >= 1,
{
    lemma_split_on_single(s, sep);
}

/// Three pieces without the separator, joined by it, split back into those
/// three pieces; two pieces likewise.
pub proof fn lemma_split_on_fields(a: Seq<char>, b: Seq<char>, c: Seq<char>, sep: char)
    requires
        !a.contains(sep),
        !b.contains(sep),
        !c.contains(sep),
    ensures
        split_on(a.push(sep) + b, sep) == seq![a, b],
        split_on((a.push(sep) + b).push(sep) + c, sep) == seq![a, b, c],
{
    lemma_split_on_single(a, sep);
    lemma_split_on_append(a, sep, b);
    assert(seq![a].push(b) =~= seq![a, b]);
    lemma_split_on_append(a.push(sep) + b, sep, c);
    assert(seq![a, b].push(c) =~= seq![a, b, c]);
}

} // verus!
