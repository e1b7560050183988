//! Which files a PDF rasteriser left behind are page images, and in what
//! order: `<prefix>-<N>.png`, ordered by page number `N` (files with the
//! same number keep their directory order).

use vstd::prelude::*;
use crate::text::{chars_of, digit_char};
use crate::timeline::{in_time_order, time_ordered, Timed};

verus! {

/// A page image: its page number and its position in the directory
/// listing.
#[derive(Debug, Clone, Copy, PartialEq, Eq, Structural)]
pub struct PageImage {
    pub page: u32,
    pub position: u64,
}

impl Timed for PageImage {
    open spec fn at(&self) -> int {
        self.page as int
    }

    open spec fn seq_no(&self) -> int {
        self.position as int
    }

    fn effective_micros(&self) -> (r: i64) {
        self.page as i64
    }

    fn sequence_no(&self) -> (r: u64) {
        self.position
    }

    fn duplicate(&self) -> (r: Self) {
        *self
    }
}

/// The position of the last `c` in `s`.
pub open spec fn last_index_of(s: Seq<char>, c: char) -> Option<int>
    decreases s.len(),
{
    if s.len() == 0 {
        None
    } else if s.last() == c {
        Some(s.len() - 1)
    } else {
        last_index_of(s.drop_last(), c)
    }
}

/// A file name's extension, as `Path::extension` reads it: the text after
/// the last `.`, unless there is none, it is the first character, or the
/// name is `..`.
pub open spec fn extension_of(name: Seq<char>) -> Option<Seq<char>> {
    if name == ".."@ {
        None
    } else {
        match last_index_of(name, '.') {
            Some(k) => if k > 0 {
                Some(name.subrange(k + 1, name.len() as int))
            } else {
                None
            },
            None => None,
        }
    }
}

/// A file name without its extension (`Path::file_stem`).
pub open spec fn stem_of(name: Seq<char>) -> Seq<char> {
    match extension_of(name) {
        Some(e) => name.subrange(0, name.len() - e.len() - 1),
        None => name,
    }
}

/// The text after the last `-` (all of it when there is none).
pub open spec fn after_last_dash(s: Seq<char>) -> Seq<char> {
    match last_index_of(s, '-') {
        Some(k) => s.subrange(k + 1, s.len() as int),
        None => s,
    }
}

pub open spec fn all_digits(s: Seq<char>) -> bool {
    forall|i: int| 0 <= i < s.len() ==> '0' <= #[trigger] s[i] <= '9'
}

/// The value of a run of decimal digits.
pub open spec fn digits_value(s: Seq<char>) -> nat
    decreases s.len(),
{
    if s.len() == 0 {
        0
    } else {
        digits_value(s.drop_last()) * 10 + ((s.last() as u32) - 48) as nat
    }
}

/// `u32::from_str`: an optional `+` and at least one decimal digit, of
/// value at most `u32::MAX`.
pub open spec fn parse_u32(s: Seq<char>) -> Option<u32> {
    let d = if s.len() > 0 && s[0] == '+' {
        s.drop_first()
    } else {
        s
    };
    if d.len() > 0 && all_digits(d) && digits_value(d) <= u32::MAX {
        Some(digits_value(d) as u32)
    } else {
        None
    }
}

/// The page a file holds: a `.png` whose stem ends in `-<number>`.
pub open spec fn page_number(name: Seq<char>) -> Option<u32> {
    if extension_of(name) == Some("png"@) {
        parse_u32(after_last_dash(stem_of(name)))
    } else {
        None
    }
}

/// The page images among `names`, in directory order.
pub open spec fn page_images_in(names: Seq<Seq<char>>) -> Seq<PageImage>
    decreases names.len(),
{
    if names.len() == 0 {
        seq![]
    } else {
        let prev = page_images_in(names.drop_last());
        match page_number(names.last()) {
            Some(n) => prev.push(PageImage { page: n, position: (names.len() - 1) as u64 }),
            None => prev,
        }
    }
}

proof fn lemma_last_index_in_bounds(s: Seq<char>, c: char)
    ensures
        last_index_of(s, c) matches Some(k) ==> 0 <= k < s.len(),
    decreases s.len(),
{
    if s.len() > 0 && s.last() != c {
        lemma_last_index_in_bounds(s.drop_last(), c);
    }
}

fn last_index(v: &Vec<char>, c: char) -> (r: Option<usize>)
    ensures
        (match r {
            Some(k) => last_index_of(v@, c) == Some(k as int) && k < v@.len(),
            None => last_index_of(v@, c) is None,
        }),
{
    let mut n: usize = v.len();
    assert(v@.subrange(0, n as int) =~= v@);
    while n > 0
        invariant
            n <= v.len(),
            last_index_of(v@.subrange(0, n as int), c) == last_index_of(v@, c),
        decreases n,
    {
        let ghost sub = v@.subrange(0, n as int);
        assert(sub.drop_last() =~= v@.subrange(0, n - 1));
        if v[n - 1] == c {
            return Some(n - 1);
        }
        n = n - 1;
    }
    None
}

fn slice_of(v: &Vec<char>, from: usize, to: usize) -> (r: Vec<char>)
    requires
        from <= to <= v.len(),
    ensures
        r@ == v@.subrange(from as int, to as int),
{
    let mut r: Vec<char> = Vec::new();
    let mut i: usize = from;
    while i < to
        invariant
            from <= i <= to,
            to <= v.len(),
            r@ == v@.subrange(from as int, i as int),
        decreases to - i,
    {
        r.push(v[i]);
        i = i + 1;
        assert(r@ =~= v@.subrange(from as int, i as int));
    }
    r
}

fn is_dot_dot(v: &Vec<char>) -> (r: bool)
    ensures
        r == (v@ == ".."@),
{
    proof {
        reveal_strlit("..");
    }
    if v.len() == 2 && v[0] == '.' && v[1] == '.' {
        assert(v@ =~= ".."@);
        true
    } else {
        false
    }
}

fn parse_u32_chars(s: &Vec<char>) -> (r: Option<u32>)
    ensures
        r == parse_u32(s@),
{
    let start: usize = if s.len() > 0 && s[0] == '+' {
        1
    } else {
        0
    };
    let ghost d = if s@.len() > 0 && s@[0] == '+' {
        s@.drop_first()
    } else {
        s@
    };
    assert(d =~= s@.subrange(start as int, s@.len() as int));
    if start == s.len() {
        return None;
    }
    let mut value: u64 = 0;
    let mut i: usize = start;
    while i < s.len()
        invariant
            start <= i <= s.len(),
            d == s@.subrange(start as int, s@.len() as int),
            d == (if s@.len() > 0 && s@[0] == '+' {
                s@.drop_first()
            } else {
                s@
            }),
            all_digits(s@.subrange(start as int, i as int)),
            value == digits_value(s@.subrange(start as int, i as int)),
            value <= u32::MAX,
        decreases s.len() - i,
    {
        let c = s[i];
        let ghost pre = s@.subrange(start as int, i as int);
        let ghost cur = s@.subrange(start as int, i + 1);
        assert(cur.drop_last() =~= pre);
        if !('0' <= c && c <= '9') {
            assert(!all_digits(d)) by {
                assert(d[i - start] == c);
            }
            return None;
        }
        let next = value * 10 + (c as u64 - 48);
        assert(all_digits(cur)) by {
            assert forall|k: int| 0 <= k < cur.len() implies '0' <= #[trigger] cur[k] <= '9' by {
                if k < pre.len() {
                    assert(cur[k] == pre[k]);
                }
            }
        }
        assert(digits_value(cur) == next);
        if next > 4_294_967_295 {
            proof {
                assert(d.subrange(0, i - start + 1) =~= cur);
                lemma_digits_value_grows(d, i - start + 1);
            }
            return None;
        }
        value = next;
        i = i + 1;
    }
    assert(s@.subrange(start as int, s.len() as int) == d);
    Some(value as u32)
}

proof fn lemma_digits_value_grows(d: Seq<char>, n: int)
    requires
        0 <= n <= d.len(),
        all_digits(d.subrange(0, n)),
    ensures
        all_digits(d) ==> digits_value(d) >= digits_value(d.subrange(0, n)),
    decreases d.len() - n,
{
    if n < d.len() && all_digits(d) {
        assert(all_digits(d.subrange(0, n + 1))) by {
            assert forall|k: int| 0 <= k < n + 1 implies '0' <= #[trigger] d.subrange(0, n + 1)[k]
                <= '9' by {
                assert(d.subrange(0, n + 1)[k] == d[k]);
            }
        }
        lemma_digits_value_grows(d, n + 1);
        assert(d.subrange(0, n + 1).drop_last() =~= d.subrange(0, n));
    }
    if n == d.len() {
        assert(d.subrange(0, n) =~= d);
    }
}

fn page_number_of(name: &str) -> (r: Option<u32>)
    ensures
        r == page_number(name@),
{
    let v = chars_of(name);
    if is_dot_dot(&v) {
        return None;
    }
    let k = match last_index(&v, '.') {
        Some(k) => k,
        None => {
            return None;
        },
    };
    if k == 0 {
        return None;
    }
    let ext = slice_of(&v, k + 1, v.len());
    proof {
        reveal_strlit("png");
    }
    if !(ext.len() == 3 && ext[0] == 'p' && ext[1] == 'n' && ext[2] == 'g') {
        assert(ext@ != "png"@) by {
            if ext@ == "png"@ {
                assert(ext@.len() == 3 && ext@[0] == 'p' && ext@[1] == 'n' && ext@[2] == 'g');
            }
        }
        return None;
    }
    assert(ext@ =~= "png"@);
    let stem = slice_of(&v, 0, k);
    assert(stem@ =~= stem_of(name@));
    let seg = match last_index(&stem, '-') {
        Some(d) => slice_of(&stem, d + 1, stem.len()),
        None => slice_of(&stem, 0, stem.len()),
    };
    assert(seg@ =~= after_last_dash(stem@));
    parse_u32_chars(&seg)
}

/// The page images among a directory's file names, ordered by page number
/// and, for equal numbers, by directory position.
pub fn order_page_images(names: &Vec<String>) -> (r: Vec<PageImage>)
    requires
        names@.len() <= u64::MAX,
    ensures
        in_time_order(r@),
        r@.to_multiset() == page_images_in(names@.map_values(|n: String| n@)).to_multiset(),
{
    let ghost nv = names@.map_values(|n: String| n@);
    let mut found: Vec<PageImage> = Vec::new();
    let mut i: usize = 0;
    while i < names.len()
        invariant
            i <= names.len(),
            names@.len() <= u64::MAX,
            nv == names@.map_values(|n: String| n@),
            found@ == page_images_in(nv.subrange(0, i as int)),
        decreases names.len() - i,
    {
        let ghost cur = nv.subrange(0, i + 1);
        assert(cur.drop_last() =~= nv.subrange(0, i as int));
        assert(cur.last() == names@[i as int]@);
        match page_number_of(names[i].as_str()) {
            Some(n) => {
                found.push(PageImage { page: n, position: i as u64 });
            },
            None => {},
        }
        i = i + 1;
    }
    assert(nv.subrange(0, nv.len() as int) =~= nv);
    time_ordered(&found, None)
}

} // verus!
