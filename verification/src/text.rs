//! Character-level text helpers: decimal rendering with zero padding,
//! comma joining, whitespace trimming, trailing-dot replacement, and
//! extension extraction. Everything here is verified against spec
//! functions over `Seq<char>`.

use vstd::prelude::*;
use vstd::string::*;

verus! {

/// The digit character for a value below ten.
pub open spec fn digit_char(d: nat) -> char {
    if d == 0 {
        '0'
    } else if d == 1 {
        '1'
    } else if d == 2 {
        '2'
    } else if d == 3 {
        '3'
    } else if d == 4 {
        '4'
    } else if d == 5 {
        '5'
    } else if d == 6 {
        '6'
    } else if d == 7 {
        '7'
    } else if d == 8 {
        '8'
    } else {
        '9'
    }
}

/// Decimal rendering of a natural number, most significant digit first.
pub open spec fn spec_dec(n: nat) -> Seq<char>
    decreases n,
{
    if n < 10 {
        seq![digit_char(n)]
    } else {
        spec_dec(n / 10).push(digit_char(n % 10))
    }
}

/// Decimal rendering left-padded with zeros to at least `width` characters.
pub open spec fn spec_padded_dec(n: nat, width: nat) -> Seq<char> {
    let d = spec_dec(n);
    if d.len() >= width {
        d
    } else {
        Seq::new((width - d.len()) as nat, |i: int| '0') + d
    }
}

fn digit_str(d: u64) -> (r: &'static str)
    requires
        d < 10,
    ensures
        r@ == seq![digit_char(d as nat)],
{
    proof {
        reveal_strlit("0");
        reveal_strlit("1");
        reveal_strlit("2");
        reveal_strlit("3");
        reveal_strlit("4");
        reveal_strlit("5");
        reveal_strlit("6");
        reveal_strlit("7");
        reveal_strlit("8");
        reveal_strlit("9");
    }
    if d == 0 {
        "0"
    } else if d == 1 {
        "1"
    } else if d == 2 {
        "2"
    } else if d == 3 {
        "3"
    } else if d == 4 {
        "4"
    } else if d == 5 {
        "5"
    } else if d == 6 {
        "6"
    } else if d == 7 {
        "7"
    } else if d == 8 {
        "8"
    } else {
        "9"
    }
}

/// Renders `n` in decimal.
pub fn dec_string(n: u64) -> (r: String)
    ensures
        r@ == spec_dec(n as nat),
    decreases n,
{
    if n < 10 {
        digit_str(n).to_owned()
    } else {
        let mut s = dec_string(n / 10);
        s.append(digit_str(n % 10));
        proof {
            assert(spec_dec((n / 10) as nat).push(digit_char((n % 10) as nat)) =~= spec_dec(
                (n / 10) as nat,
            ) + seq![digit_char((n % 10) as nat)]);
        }
        s
    }
}

/// Renders `n` in decimal, zero-padded on the left to at least `width`
/// characters.
pub fn padded_dec_string(n: u64, width: usize) -> (r: String)
    ensures
        r@ == spec_padded_dec(n as nat, width as nat),
{
    let d = dec_string(n);
    let len = d.as_str().unicode_len();
    if len >= width {
        d
    } else {
        let mut s = String::new();
        let mut i: usize = 0;
        proof {
            reveal_strlit("0");
            assert(s@ =~= Seq::new(0, |k: int| '0'));
        }
        while i < width - len
            invariant
                i <= width - len,
                len < width,
                s@ == Seq::new(i as nat, |k: int| '0'),
            decreases width - len - i,
        {
            s.append("0");
            i = i + 1;
            proof {
                reveal_strlit("0");
                assert(s@ =~= Seq::new(i as nat, |k: int| '0'));
            }
        }
        s.append(d.as_str());
        s
    }
}

/// Join of a list of strings with a comma-space separator.
pub open spec fn spec_join_comma(items: Seq<Seq<char>>) -> Seq<char>
    decreases items.len(),
{
    if items.len() == 0 {
        Seq::empty()
    } else if items.len() == 1 {
        items[0]
    } else {
        items[0] + ", "@ + spec_join_comma(items.drop_first())
    }
}

/// Joins the strings of `items` with `", "` between neighbours.
pub fn join_comma(items: &Vec<String>) -> (r: String)
    ensures
        r@ == spec_join_comma(items.deep_view()),
{
    let ghost d = items.deep_view();
    if items.len() == 0 {
        proof {
            assert(d.len() == 0);
        }
        return String::new();
    }
    let mut i = items.len() - 1;
    let mut r: String = items[i].clone();
    proof {
        assert(d.len() == items.len());
        assert(d.skip(i as int) =~= seq![d[i as int]]);
        assert(r@ == d[i as int]);
    }
    while i > 0
        invariant
            i < items.len(),
            d == items.deep_view(),
            d.len() == items.len(),
            r@ == spec_join_comma(d.skip(i as int)),
        decreases i,
    {
        i = i - 1;
        let mut t: String = items[i].clone();
        t.append(", ");
        t.append(r.as_str());
        proof {
            assert(d.skip(i as int).drop_first() =~= d.skip(i as int + 1));
            assert(t@ == d[i as int] + ", "@ + spec_join_comma(d.skip(i as int + 1)));
        }
        r = t;
    }
    proof {
        assert(d.skip(0) =~= d);
    }
    r
}

/// Whitespace as the trimming below understands it.
pub open spec fn is_ws_char(c: char) -> bool {
    c == ' ' || c == '\t' || c == '\n' || c == '\r'
}

fn is_ws(c: char) -> (r: bool)
    ensures
        r == is_ws_char(c),
{
    c == ' ' || c == '\t' || c == '\n' || c == '\r'
}

/// `s` with its trailing whitespace removed.
pub open spec fn spec_trim_end(s: Seq<char>) -> Seq<char>
    decreases s.len(),
{
    if s.len() > 0 && is_ws_char(s.last()) {
        spec_trim_end(s.drop_last())
    } else {
        s
    }
}

/// `s` with its leading whitespace removed.
pub open spec fn spec_trim_start(s: Seq<char>) -> Seq<char>
    decreases s.len(),
{
    if s.len() > 0 && is_ws_char(s.first()) {
        spec_trim_start(s.drop_first())
    } else {
        s
    }
}

/// `s` with whitespace removed from both ends.
pub open spec fn spec_trim(s: Seq<char>) -> Seq<char> {
    spec_trim_start(spec_trim_end(s))
}

/// Removes whitespace from both ends of `s`.
pub fn trim_ws(s: &str) -> (r: String)
    ensures
        r@ == spec_trim(s@),
{
    let len = s.unicode_len();
    let mut e = len;
    proof {
        assert(s@.take(len as int) =~= s@);
    }
    while e > 0 && is_ws(s.get_char(e - 1))
        invariant
            e <= len,
            len == s@.len(),
            spec_trim_end(s@) == spec_trim_end(s@.take(e as int)),
        decreases e,
    {
        proof {
            assert(s@.take(e as int).last() == s@[e as int - 1]);
            assert(s@.take(e as int).drop_last() =~= s@.take(e as int - 1));
        }
        e = e - 1;
    }
    proof {
        if e > 0 {
            assert(s@.take(e as int).last() == s@[e as int - 1]);
        }
        assert(spec_trim_end(s@.take(e as int)) == s@.take(e as int));
    }
    let ghost t = s@.take(e as int);
    let mut b: usize = 0;
    proof {
        assert(t.skip(0) =~= t);
    }
    while b < e && is_ws(s.get_char(b))
        invariant
            b <= e,
            e <= len,
            len == s@.len(),
            t == s@.take(e as int),
            spec_trim_start(t) == spec_trim_start(t.skip(b as int)),
        decreases e - b,
    {
        proof {
            assert(t.skip(b as int).first() == s@[b as int]);
            assert(t.skip(b as int).drop_first() =~= t.skip(b as int + 1));
        }
        b = b + 1;
    }
    proof {
        if b < e {
            assert(t.skip(b as int).first() == s@[b as int]);
        }
        assert(spec_trim_start(t.skip(b as int)) == t.skip(b as int));
        assert(t.skip(b as int) =~= s@.subrange(b as int, e as int));
    }
    s.substring_char(b, e).to_owned()
}

/// `s` with its run of trailing dots removed.
pub open spec fn spec_strip_trailing_dots(s: Seq<char>) -> Seq<char>
    decreases s.len(),
{
    if s.len() > 0 && s.last() == '.' {
        spec_strip_trailing_dots(s.drop_last())
    } else {
        s
    }
}

/// The strip of trailing dots is a prefix of its input: no longer, no
/// character changed, strictly shorter whenever a dot was stripped,
/// and never itself ending with a dot.
pub proof fn lemma_strip_trailing_dots_prefix(s: Seq<char>)
    ensures
        spec_strip_trailing_dots(s).len() <= s.len(),
        forall|i: int|
            0 <= i < spec_strip_trailing_dots(s).len() ==> #[trigger] spec_strip_trailing_dots(
                s,
            )[i] == s[i],
        s.len() > 0 && s.last() == '.' ==> spec_strip_trailing_dots(s).len() < s.len(),
        spec_strip_trailing_dots(s).len() > 0 ==> spec_strip_trailing_dots(s).last() != '.',
    decreases s.len(),
{
    if s.len() > 0 && s.last() == '.' {
        lemma_strip_trailing_dots_prefix(s.drop_last());
        assert(forall|i: int| 0 <= i < s.len() - 1 ==> #[trigger] s.drop_last()[i] == s[i]);
    }
}

/// A name that ends with a dot has the whole run of trailing dots
/// replaced by a single underscore; any other name passes unchanged.
pub open spec fn spec_replace_dot_suffix(s: Seq<char>) -> Seq<char> {
    if s.len() > 0 && s.last() == '.' {
        spec_strip_trailing_dots(s) + "_"@
    } else {
        s
    }
}

/// The part of `s` after its last occurrence of `c`; the whole of `s`
/// when `c` does not occur.
pub open spec fn spec_after_last(s: Seq<char>, c: char) -> Seq<char>
    decreases s.len(),
{
    if s.len() == 0 {
        s
    } else if s.last() == c {
        Seq::empty()
    } else {
        spec_after_last(s.drop_last(), c).push(s.last())
    }
}

/// Whether `c` occurs in `s`.
pub open spec fn spec_has_char(s: Seq<char>, c: char) -> bool {
    exists|i: int| 0 <= i < s.len() && s[i] == c
}

proof fn lemma_after_last_absent(s: Seq<char>, c: char)
    requires
        !spec_has_char(s, c),
    ensures
        spec_after_last(s, c) == s,
    decreases s.len(),
{
    if s.len() > 0 {
        assert(s.last() != c);
        assert(!spec_has_char(s.drop_last(), c)) by {
            assert(forall|i: int|
                0 <= i < s.len() - 1 ==> s.drop_last()[i] == s[i]);
        }
        lemma_after_last_absent(s.drop_last(), c);
        assert(s.drop_last().push(s.last()) =~= s);
    }
}

proof fn lemma_after_last_at(s: Seq<char>, c: char, i: int)
    requires
        0 <= i < s.len(),
        s[i] == c,
        forall|j: int| i < j < s.len() ==> s[j] != c,
    ensures
        spec_after_last(s, c) == s.skip(i + 1),
    decreases s.len(),
{
    if i == s.len() - 1 {
        assert(s.last() == c);
        assert(s.skip(i + 1) =~= Seq::empty());
    } else {
        assert(s.last() != c);
        assert(s.drop_last()[i] == c);
        assert(forall|j: int| i < j < s.len() - 1 ==> s.drop_last()[j] != c);
        lemma_after_last_at(s.drop_last(), c, i);
        assert(s.drop_last().skip(i + 1).push(s.last()) =~= s.skip(i + 1));
    }
}

/// The extension of a plain file name: the part after the last dot,
/// provided a dot stands at some position past the first character.
/// A name without a dot, or whose only dot begins it, has none.
pub open spec fn spec_extension_of_name(fname: Seq<char>) -> Option<Seq<char>> {
    if exists|i: int| 1 <= i < fname.len() && fname[i] == '.' {
        Some(spec_after_last(fname, '.'))
    } else {
        None
    }
}

/// The extension of the final path segment (the part after the last
/// slash) of `path`.
pub open spec fn spec_extension_of_path(path: Seq<char>) -> Option<Seq<char>> {
    spec_extension_of_name(spec_after_last(path, '/'))
}

/// Computes the extension of the final segment of `path`, without its
/// leading dot.
pub fn extension_of_path(path: &str) -> (r: Option<String>)
    ensures
        r.deep_view() == spec_extension_of_path(path@),
{
    let len = path.unicode_len();
    let mut i: usize = 0;
    let mut last_slash: Option<usize> = None;
    let mut last_dot: Option<usize> = None;
    while i < len
        invariant
            i <= len,
            len == path@.len(),
            match last_slash {
                Option::None => forall|j: int| 0 <= j < i ==> path@[j] != '/',
                Option::Some(k) => k < i && path@[k as int] == '/' && forall|j: int|
                    k < j < i ==> path@[j] != '/',
            },
            match last_dot {
                Option::None => forall|j: int| 0 <= j < i ==> path@[j] != '.',
                Option::Some(k) => k < i && path@[k as int] == '.' && forall|j: int|
                    k < j < i ==> path@[j] != '.',
            },
        decreases len - i,
    {
        let c = path.get_char(i);
        if c == '/' {
            last_slash = Some(i);
        }
        if c == '.' {
            last_dot = Some(i);
        }
        i = i + 1;
    }
    let ghost p = path@;
    let ghost fname = spec_after_last(p, '/');
    let slash_end: usize = match last_slash {
        Some(k) => {
            proof {
                lemma_after_last_at(p, '/', k as int);
            }
            k + 1
        },
        None => {
            proof {
                lemma_after_last_absent(p, '/');
                assert(p.skip(0) =~= p);
            }
            0
        },
    };
    proof {
        assert(fname == p.skip(slash_end as int));
    }
    match last_dot {
        Some(dk) if dk > slash_end => {
            proof {
                let rel = dk - slash_end;
                assert(fname[rel as int] == '.');
                assert(forall|j: int| rel < j < fname.len() ==> fname[j] != '.');
                lemma_after_last_at(fname, '.', rel as int);
                assert(fname.skip(rel as int + 1) =~= p.subrange(dk as int + 1, len as int));
                assert(1 <= rel < fname.len());
            }
            Some(path.substring_char(dk + 1, len).to_owned())
        },
        _ => {
            proof {
                if exists|j: int| 1 <= j < fname.len() && fname[j] == '.' {
                    let j = choose|j: int| 1 <= j < fname.len() && fname[j] == '.';
                    assert(p[slash_end + j] == '.');
                    match last_dot {
                        Option::None => {
                            assert(false);
                        },
                        Option::Some(dk) => {
                            assert(dk < slash_end + 1);
                            assert(slash_end + j > dk);
                            assert(false);
                        },
                    }
                }
            }
            None
        },
    }
}

} // verus!
