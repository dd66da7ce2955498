//! Codec for `.env` configuration files, over raw bytes.
//!
//! A file is a sequence of lines. A line is significant when, after
//! trimming surrounding blanks, it is nonempty, is no comment (does not
//! begin with `#`), and contains a `=`. Its key is the trimmed text before
//! the first `=`; its value is the trimmed text after it, stripped of any
//! surrounding double quotes and then of any surrounding single quotes.
//! Writing renders one `KEY=VALUE` line per pair, in order.

use vstd::prelude::*;

verus! {

/// A blank byte that trimming removes: space, tab, or carriage return.
pub open spec fn is_env_space(b: u8) -> bool {
    b == 32 || b == 9 || b == 13
}

/// First index at or after `i` holding a non-blank byte, or the length.
pub open spec fn skip_ws_from(s: Seq<u8>, i: int) -> int
    decreases s.len() - i,
    when 0 <= i <= s.len()
{
    if i >= s.len() {
        s.len() as int
    } else if is_env_space(s[i]) {
        skip_ws_from(s, i + 1)
    } else {
        i
    }
}

/// Largest boundary at or before `j` whose preceding byte is non-blank, or
/// zero.
pub open spec fn keep_ws_rev(s: Seq<u8>, j: int) -> int
    decreases j,
    when 0 <= j <= s.len()
{
    if j <= 0 {
        0
    } else if is_env_space(s[j - 1]) {
        keep_ws_rev(s, j - 1)
    } else {
        j
    }
}

/// First index at or after `i` holding a byte other than `c`, or the length.
pub open spec fn skip_ch_from(s: Seq<u8>, c: u8, i: int) -> int
    decreases s.len() - i,
    when 0 <= i <= s.len()
{
    if i >= s.len() {
        s.len() as int
    } else if s[i] == c {
        skip_ch_from(s, c, i + 1)
    } else {
        i
    }
}

/// Largest boundary at or before `j` whose preceding byte is not `c`, or
/// zero.
pub open spec fn keep_ch_rev(s: Seq<u8>, c: u8, j: int) -> int
    decreases j,
    when 0 <= j <= s.len()
{
    if j <= 0 {
        0
    } else if s[j - 1] == c {
        keep_ch_rev(s, c, j - 1)
    } else {
        j
    }
}

/// First index at or after `i` holding exactly `c`, or the length.
pub open spec fn find_from(s: Seq<u8>, c: u8, i: int) -> int
    decreases s.len() - i,
    when 0 <= i <= s.len()
{
    if i >= s.len() {
        s.len() as int
    } else if s[i] == c {
        i
    } else {
        find_from(s, c, i + 1)
    }
}

proof fn lemma_find_from_bounds(s: Seq<u8>, c: u8, i: int)
    requires
        0 <= i <= s.len(),
    ensures
        i <= find_from(s, c, i) <= s.len(),
    decreases s.len() - i,
{
    if i < s.len() && s[i] != c {
        lemma_find_from_bounds(s, c, i + 1);
    }
}

proof fn lemma_keep_ws_bounds(s: Seq<u8>, j: int)
    requires
        0 <= j <= s.len(),
    ensures
        0 <= keep_ws_rev(s, j) <= j,
    decreases j,
{
    if j > 0 && is_env_space(s[j - 1]) {
        lemma_keep_ws_bounds(s, j - 1);
    }
}

proof fn lemma_keep_ch_bounds(s: Seq<u8>, c: u8, j: int)
    requires
        0 <= j <= s.len(),
    ensures
        0 <= keep_ch_rev(s, c, j) <= j,
    decreases j,
{
    if j > 0 && s[j - 1] == c {
        lemma_keep_ch_bounds(s, c, j - 1);
    }
}

/// The sequence with surrounding blanks removed.
pub open spec fn trim_ws(s: Seq<u8>) -> Seq<u8> {
    let a = skip_ws_from(s, 0);
    let b = keep_ws_rev(s, s.len() as int);
    if a <= b {
        s.subrange(a, b)
    } else {
        Seq::empty()
    }
}

/// The sequence with surrounding `c` bytes removed.
pub open spec fn trim_ch(s: Seq<u8>, c: u8) -> Seq<u8> {
    let a = skip_ch_from(s, c, 0);
    let b = keep_ch_rev(s, c, s.len() as int);
    if a <= b {
        s.subrange(a, b)
    } else {
        Seq::empty()
    }
}

/// The entry one line contributes: nothing for blank lines, comments and
/// lines without `=`; otherwise the trimmed key before the first `=` and
/// the trimmed, unquoted value after it.
pub open spec fn env_line_entry(line: Seq<u8>) -> Option<(Seq<u8>, Seq<u8>)> {
    let t = trim_ws(line);
    if t.len() == 0 || t[0] == 35 {
        Option::None
    } else {
        let eq = find_from(t, 61, 0);
        if eq >= t.len() {
            Option::None
        } else {
            let key = trim_ws(t.subrange(0, eq));
            let raw = trim_ws(t.subrange(eq + 1, t.len() as int));
            Option::Some((key, trim_ch(trim_ch(raw, 34), 39)))
        }
    }
}

/// All entries contributed by the lines at or after position `i`, where
/// lines end at a newline byte or at the end of the file.
pub open spec fn parse_env_entries(s: Seq<u8>, i: int) -> Seq<(Seq<u8>, Seq<u8>)>
    decreases s.len() - i,
    when 0 <= i <= s.len()
    via parse_env_entries_dec
{
    if i >= s.len() {
        Seq::empty()
    } else {
        let nl = find_from(s, 10, i);
        let line = s.subrange(i, nl);
        let rest = if nl < s.len() {
            parse_env_entries(s, nl + 1)
        } else {
            Seq::empty()
        };
        match env_line_entry(line) {
            Option::Some(kv) => seq![kv] + rest,
            Option::None => rest,
        }
    }
}

#[via_fn]
proof fn parse_env_entries_dec(s: Seq<u8>, i: int) {
    if 0 <= i <= s.len() && i < s.len() {
        lemma_find_from_bounds(s, 10, i);
    }
}

/// The views of a sequence of byte-vector pairs.
pub open spec fn pairs_view(ps: Seq<(Vec<u8>, Vec<u8>)>) -> Seq<(Seq<u8>, Seq<u8>)> {
    ps.map(|i: int, kv: (Vec<u8>, Vec<u8>)| (kv.0@, kv.1@))
}

/// Rendered content of an env file: one `KEY=VALUE` line per pair, each
/// ended by a newline, in the given order.
pub open spec fn env_file_content(pairs: Seq<(Vec<u8>, Vec<u8>)>) -> Seq<u8>
    decreases pairs.len(),
{
    if pairs.len() == 0 {
        Seq::empty()
    } else {
        env_file_content(pairs.drop_last()) + pairs.last().0@ + seq![61u8] + pairs.last().1@
            + seq![10u8]
    }
}

fn subrange_vec(s: &[u8], i: usize, j: usize) -> (r: Vec<u8>)
    requires
        i <= j <= s@.len(),
    ensures
        r@ == s@.subrange(i as int, j as int),
{
    let mut r: Vec<u8> = Vec::new();
    let mut k: usize = i;
    proof {
        assert(r@ =~= s@.subrange(i as int, i as int));
    }
    while k < j
        invariant
            i <= k <= j <= s@.len(),
            r@ == s@.subrange(i as int, k as int),
        decreases j - k,
    {
        let b = s[k];
        r.push(b);
        k = k + 1;
        proof {
            assert(r@ =~= s@.subrange(i as int, k as int));
        }
    }
    r
}

/// Removes surrounding blanks (spaces, tabs, carriage returns).
fn trim_ws_bytes(v: &[u8]) -> (r: Vec<u8>)
    ensures
        r@ == trim_ws(v@),
{
    let n = v.len();
    let mut a: usize = 0;
    while a < n && (v[a] == 32 || v[a] == 9 || v[a] == 13)
        invariant
            0 <= a <= n,
            n == v@.len(),
            skip_ws_from(v@, 0) == skip_ws_from(v@, a as int),
        decreases n - a,
    {
        a = a + 1;
    }
    let mut b: usize = n;
    while b > a && (v[b - 1] == 32 || v[b - 1] == 9 || v[b - 1] == 13)
        invariant
            a <= b <= n,
            n == v@.len(),
            keep_ws_rev(v@, n as int) == keep_ws_rev(v@, b as int),
        decreases b,
    {
        b = b - 1;
    }
    proof {
        assert(skip_ws_from(v@, a as int) == a as int);
        if b > a {
            assert(keep_ws_rev(v@, b as int) == b as int);
        }
    }
    if a >= b {
        proof {
            lemma_keep_ws_bounds(v@, b as int);
            if a as int <= keep_ws_rev(v@, n as int) {
                assert(v@.subrange(a as int, keep_ws_rev(v@, n as int)) =~= Seq::<u8>::empty());
            }
        }
        Vec::new()
    } else {
        subrange_vec(v, a, b)
    }
}

/// Removes surrounding occurrences of the byte `c`.
fn trim_ch_bytes(v: &[u8], c: u8) -> (r: Vec<u8>)
    ensures
        r@ == trim_ch(v@, c),
{
    let n = v.len();
    let mut a: usize = 0;
    while a < n && v[a] == c
        invariant
            0 <= a <= n,
            n == v@.len(),
            skip_ch_from(v@, c, 0) == skip_ch_from(v@, c, a as int),
        decreases n - a,
    {
        a = a + 1;
    }
    let mut b: usize = n;
    while b > a && v[b - 1] == c
        invariant
            a <= b <= n,
            n == v@.len(),
            keep_ch_rev(v@, c, n as int) == keep_ch_rev(v@, c, b as int),
        decreases b,
    {
        b = b - 1;
    }
    proof {
        assert(skip_ch_from(v@, c, a as int) == a as int);
        if b > a {
            assert(keep_ch_rev(v@, c, b as int) == b as int);
        }
    }
    if a >= b {
        proof {
            lemma_keep_ch_bounds(v@, c, b as int);
            if a as int <= keep_ch_rev(v@, c, n as int) {
                assert(v@.subrange(a as int, keep_ch_rev(v@, c, n as int)) =~= Seq::<u8>::empty());
            }
        }
        Vec::new()
    } else {
        subrange_vec(v, a, b)
    }
}

/// The entry one line contributes, as [`env_line_entry`] states it.
fn parse_env_line(line: &[u8]) -> (r: Option<(Vec<u8>, Vec<u8>)>)
    ensures
        match r {
            Option::Some(kv) => env_line_entry(line@) == Option::Some((kv.0@, kv.1@)),
            Option::None => env_line_entry(line@) is None,
        },
{
    let t = trim_ws_bytes(line);
    let tn = t.len();
    if tn == 0 {
        return Option::None;
    }
    if t[0] == 35 {
        return Option::None;
    }
    let mut e: usize = 0;
    while e < tn && t[e] != 61
        invariant
            0 <= e <= tn,
            tn == t@.len(),
            find_from(t@, 61, 0) == find_from(t@, 61, e as int),
        decreases tn - e,
    {
        e = e + 1;
    }
    if e == tn {
        return Option::None;
    }
    let key_raw = subrange_vec(t.as_slice(), 0, e);
    let key = trim_ws_bytes(key_raw.as_slice());
    let raw = subrange_vec(t.as_slice(), e + 1, tn);
    let raw_t = trim_ws_bytes(raw.as_slice());
    let unq1 = trim_ch_bytes(raw_t.as_slice(), 34);
    let unq2 = trim_ch_bytes(unq1.as_slice(), 39);
    Option::Some((key, unq2))
}

/// Parses env-file content into its key–value entries, in file order, as
/// [`parse_env_entries`] states it. Parsing never fails: malformed lines
/// contribute nothing.
pub fn parse_env_file(content: &[u8]) -> (r: Vec<(Vec<u8>, Vec<u8>)>)
    ensures
        pairs_view(r@) == parse_env_entries(content@, 0),
{
    let n = content.len();
    let mut r: Vec<(Vec<u8>, Vec<u8>)> = Vec::new();
    let mut pos: usize = 0;
    proof {
        assert(pairs_view(r@) =~= Seq::empty());
    }
    while pos < n
        invariant
            0 <= pos <= n,
            n == content@.len(),
            parse_env_entries(content@, 0) == pairs_view(r@) + parse_env_entries(
                content@,
                pos as int,
            ),
        decreases n - pos,
    {
        let ghost pos0 = pos as int;
        let mut nl: usize = pos;
        while nl < n && content[nl] != 10
            invariant
                pos <= nl <= n,
                n == content@.len(),
                find_from(content@, 10, pos as int) == find_from(content@, 10, nl as int),
            decreases n - nl,
        {
            nl = nl + 1;
        }
        let line = subrange_vec(content, pos, nl);
        let entry = parse_env_line(line.as_slice());
        proof {
            assert(find_from(content@, 10, pos0) == nl as int);
        }
        let next_pos: usize = if nl < n {
            nl + 1
        } else {
            n
        };
        proof {
            if nl == n {
                assert(parse_env_entries(content@, next_pos as int) =~= Seq::empty());
            }
        }
        let ghost prev = r@;
        match entry {
            Option::Some(kv) => {
                let ghost kvv = (kv.0@, kv.1@);
                r.push(kv);
                proof {
                    assert(pairs_view(r@) =~= pairs_view(prev) + seq![kvv]);
                    assert(parse_env_entries(content@, pos0) =~= seq![kvv] + parse_env_entries(
                        content@,
                        next_pos as int,
                    ));
                    assert(pairs_view(prev) + parse_env_entries(content@, pos0) =~= pairs_view(r@)
                        + parse_env_entries(content@, next_pos as int));
                }
            },
            Option::None => {
                proof {
                    assert(parse_env_entries(content@, pos0) =~= parse_env_entries(
                        content@,
                        next_pos as int,
                    ));
                }
            },
        }
        pos = next_pos;
    }
    proof {
        assert(parse_env_entries(content@, pos as int) =~= Seq::empty());
        assert(pairs_view(r@) + Seq::<(Seq<u8>, Seq<u8>)>::empty() =~= pairs_view(r@));
    }
    r
}

/// Renders env data as the content of the default env file: one
/// `KEY=VALUE` line per pair, in order, as [`env_file_content`] states it.
/// The caller places the rendered bytes at the file's well-known path.
pub fn write_to_default_env_file(env_data: &Vec<(Vec<u8>, Vec<u8>)>) -> (r: Vec<u8>)
    ensures
        r@ == env_file_content(env_data@),
{
    let mut r: Vec<u8> = Vec::new();
    let n = env_data.len();
    let mut i: usize = 0;
    proof {
        assert(env_data@.take(0) =~= Seq::empty());
        assert(r@ =~= env_file_content(env_data@.take(0)));
    }
    while i < n
        invariant
            0 <= i <= n,
            n == env_data@.len(),
            r@ == env_file_content(env_data@.take(i as int)),
        decreases n - i,
    {
        r.extend_from_slice(env_data[i].0.as_slice());
        r.push(61);
        r.extend_from_slice(env_data[i].1.as_slice());
        r.push(10);
        i = i + 1;
        proof {
            assert(env_data@.take(i as int).drop_last() =~= env_data@.take(i as int - 1));
            assert(env_data@.take(i as int).last() == env_data@[i as int - 1]);
            assert(r@ =~= env_file_content(env_data@.take(i as int)));
        }
    }
    proof {
        assert(env_data@.take(n as int) =~= env_data@);
    }
    r
}


} // verus!
