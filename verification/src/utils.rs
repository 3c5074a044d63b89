//! Parsing of raw proxy-list text.
//!
//! A proxy source yields plain text, one candidate per line. A line already
//! prefixed `socks5://` is kept verbatim; a non-empty line containing a
//! colon and not starting with `#` is kept with `socks5://` prefixed; every
//! other line is discarded. Lines are separated by `'\n'` and trimmed of
//! ASCII whitespace at both ends before classification.

use vstd::prelude::*;

verus! {

/// ASCII whitespace trimmed from line ends.
pub open spec fn spec_is_space(c: char) -> bool {
    c == ' ' || c == '\t' || c == '\r'
}

/// `s` without its leading whitespace.
pub open spec fn spec_trim_front(s: Seq<char>) -> Seq<char>
    decreases s.len(),
{
    if s.len() > 0 && spec_is_space(s[0]) {
        spec_trim_front(s.drop_first())
    } else {
        s
    }
}

/// `s` without its trailing whitespace.
pub open spec fn spec_trim_back(s: Seq<char>) -> Seq<char>
    decreases s.len(),
{
    if s.len() > 0 && spec_is_space(s.last()) {
        spec_trim_back(s.drop_last())
    } else {
        s
    }
}

/// `s` without whitespace at either end.
pub open spec fn spec_trim(s: Seq<char>) -> Seq<char> {
    spec_trim_back(spec_trim_front(s))
}

/// `p` is a prefix of `s`.
pub open spec fn spec_starts_with(s: Seq<char>, p: Seq<char>) -> bool {
    s.len() >= p.len() && s.subrange(0, p.len() as int) == p
}

/// Some character of `s` is a colon.
pub open spec fn spec_contains_colon(s: Seq<char>) -> bool {
    exists|i: int| 0 <= i < s.len() && s[i] == ':'
}

/// What a trimmed line contributes: itself when already a `socks5://` URL;
/// itself behind a `socks5://` prefix when it is non-empty, holds a colon,
/// and is no `#` comment; nothing otherwise.
pub open spec fn spec_kept_line(t: Seq<char>) -> Option<Seq<char>> {
    if spec_starts_with(t, "socks5://"@) {
        Some(t)
    } else if spec_contains_colon(t) && t.len() > 0 && t[0] != '#' {
        Some("socks5://"@ + t)
    } else {
        None
    }
}

/// Index of the first `'\n'` in `s`, or `s.len()` if there is none.
pub open spec fn spec_find_newline(s: Seq<char>) -> int
    decreases s.len(),
{
    if s.len() == 0 {
        0
    } else if s[0] == '\n' {
        0
    } else {
        1 + spec_find_newline(s.drop_first())
    }
}

/// The proxy URLs parsed out of `s`: each line split at `'\n'`, trimmed,
/// classified by [`spec_kept_line`], in input order.
pub open spec fn spec_parse_proxy_list(s: Seq<char>) -> Seq<Seq<char>>
    decreases s.len(),
{
    if s.len() == 0 {
        Seq::<Seq<char>>::empty()
    } else {
        let k0 = spec_find_newline(s);
        let k = if k0 < 0 {
            0
        } else if k0 > s.len() {
            s.len() as int
        } else {
            k0
        };
        let line = s.subrange(0, k);
        let rest = if k < s.len() {
            s.subrange(k + 1, s.len() as int)
        } else {
            Seq::<char>::empty()
        };
        let kept = match spec_kept_line(spec_trim(line)) {
            Some(u) => seq![u],
            None => Seq::<Seq<char>>::empty(),
        };
        kept + spec_parse_proxy_list(rest)
    }
}

/// `spec_find_newline` lands on the first newline, or on the length.
proof fn lemma_find_newline_at(s: Seq<char>, m: int)
    requires
        0 <= m <= s.len(),
        forall|k: int| 0 <= k < m ==> s[k] != '\n',
        m == s.len() || s[m] == '\n',
    ensures
        spec_find_newline(s) == m,
    decreases s.len(),
{
    if s.len() > 0 && s[0] != '\n' {
        let t = s.drop_first();
        assert(forall|k: int| 0 <= k < m - 1 ==> t[k] == s[k + 1] && s[k + 1] != '\n');
        lemma_find_newline_at(t, m - 1);
    }
}

/// Dropping exactly the leading whitespace is what `spec_trim_front` does.
proof fn lemma_trim_front_at(s: Seq<char>, m: int)
    requires
        0 <= m <= s.len(),
        forall|k: int| 0 <= k < m ==> spec_is_space(#[trigger] s[k]),
        m == s.len() || !spec_is_space(s[m]),
    ensures
        spec_trim_front(s) == s.subrange(m, s.len() as int),
    decreases s.len(),
{
    if m == 0 {
        if !(s.len() > 0 && spec_is_space(s[0])) {
            assert(s.subrange(0, s.len() as int) =~= s);
        } else {
            assert(false);
        }
    } else {
        assert(spec_is_space(s[0]));
        let t = s.drop_first();
        assert(forall|k: int| 0 <= k < m - 1 ==> t[k] == s[k + 1] && spec_is_space(#[trigger] s[k
            + 1]));
        lemma_trim_front_at(t, m - 1);
        assert(t.subrange(m - 1, t.len() as int) =~= s.subrange(m, s.len() as int));
    }
}

/// Dropping exactly the trailing whitespace is what `spec_trim_back` does.
proof fn lemma_trim_back_at(s: Seq<char>, m: int)
    requires
        0 <= m <= s.len(),
        forall|k: int| m <= k < s.len() ==> spec_is_space(#[trigger] s[k]),
        m == 0 || !spec_is_space(s[m - 1]),
    ensures
        spec_trim_back(s) == s.subrange(0, m),
    decreases s.len(),
{
    if m == s.len() {
        if !(s.len() > 0 && spec_is_space(s.last())) {
            assert(s.subrange(0, m) =~= s);
        } else {
            assert(false);
        }
    } else {
        assert(spec_is_space(s.last()));
        let t = s.drop_last();
        lemma_trim_back_at(t, m);
        assert(t.subrange(0, m) =~= s.subrange(0, m));
    }
}

/// Whether `c` is trimmed from line ends.
fn is_space(c: char) -> (r: bool)
    ensures
        r == spec_is_space(c),
{
    c == ' ' || c == '\t' || c == '\r'
}

/// Parse raw proxy-list text: split into lines at `'\n'`, trim ASCII
/// whitespace from both ends of each line, keep `socks5://` lines
/// verbatim, prefix `socks5://` onto non-empty non-comment lines holding a
/// colon, and discard the rest, in input order.
#[verifier::rlimit(100)]
pub fn parse_proxy_list(content: &str) -> (r: Vec<String>)
    ensures
        r.deep_view() == spec_parse_proxy_list(content@),
{
    let ghost s = content@;
    let n: usize = content.unicode_len();
    let mut result: Vec<String> = Vec::new();
    let mut i: usize = 0;
    proof {
        assert(s.skip(0) =~= s);
        assert(result.deep_view() =~= Seq::<Seq<char>>::empty());
    }
    while i < n
        invariant
            i <= n,
            n == s.len(),
            s == content@,
            result.deep_view() + spec_parse_proxy_list(s.skip(i as int)) == spec_parse_proxy_list(
                s,
            ),
        decreases n - i,
    {
        let ghost pre_deep = result.deep_view();
        // End of the current line.
        let mut j: usize = i;
        while j < n && content.get_char(j) != '\n'
            invariant
                i <= j <= n,
                n == s.len(),
                s == content@,
                forall|k: int| i <= k < j ==> s[k] != '\n',
            decreases n - j,
        {
            j = j + 1;
        }
        // Trim the line to s[a .. b].
        let mut a: usize = i;
        while a < j && is_space(content.get_char(a))
            invariant
                i <= a <= j <= n,
                n == s.len(),
                s == content@,
                forall|k: int| i <= k < a ==> spec_is_space(#[trigger] s[k]),
            decreases j - a,
        {
            a = a + 1;
        }
        let mut b: usize = j;
        while b > a && is_space(content.get_char(b - 1))
            invariant
                a <= b <= j <= n,
                n == s.len(),
                s == content@,
                forall|k: int| b <= k < j ==> spec_is_space(#[trigger] s[k]),
            decreases b,
        {
            b = b - 1;
        }
        let ghost line = s.subrange(i as int, j as int);
        let ghost trimmed = s.subrange(a as int, b as int);
        proof {
            let tail = s.skip(i as int);
            assert(forall|k: int|
                0 <= k < j - i ==> #[trigger] tail[k] == s[k + i] && s[k + i] != '\n');
            lemma_find_newline_at(tail, j - i);
            assert(tail.subrange(0, j - i) =~= line);
            // Trimming the line leaves exactly s[a .. b].
            assert(forall|k: int|
                0 <= k < a - i ==> line[k] == s[k + i] && spec_is_space(#[trigger] line[k]));
            lemma_trim_front_at(line, a - i);
            let front = line.subrange(a - i, line.len() as int);
            assert(front =~= s.subrange(a as int, j as int));
            assert(forall|k: int|
                b - a <= k < front.len() ==> front[k] == s[k + a] && spec_is_space(
                    #[trigger] front[k],
                ));
            lemma_trim_back_at(front, b - a);
            assert(front.subrange(0, b - a) =~= trimmed);
            assert(spec_trim(line) == trimmed);
        }
        // Classify the trimmed line.
        let has_prefix: bool = b - a >= 9 && content.get_char(a) == 's' && content.get_char(a + 1)
            == 'o' && content.get_char(a + 2) == 'c' && content.get_char(a + 3) == 'k'
            && content.get_char(a + 4) == 's' && content.get_char(a + 5) == '5' && content.get_char(
            a + 6,
        ) == ':' && content.get_char(a + 7) == '/' && content.get_char(a + 8) == '/';
        proof {
            reveal_strlit("socks5://");
            let lit = "socks5://"@;
            assert(lit.len() == 9);
            assert(forall|m: int| 0 <= m < trimmed.len() ==> #[trigger] trimmed[m] == s[m + a]);
            if has_prefix {
                assert(trimmed.subrange(0, 9) =~= lit);
                assert(spec_starts_with(trimmed, lit));
            } else {
                if spec_starts_with(trimmed, lit) {
                    assert(forall|m: int|
                        0 <= m < 9 ==> #[trigger] trimmed.subrange(0, 9)[m] == trimmed[m]);
                    assert(trimmed[0] == lit[0] && trimmed[1] == lit[1] && trimmed[2] == lit[2]
                        && trimmed[3] == lit[3] && trimmed[4] == lit[4] && trimmed[5] == lit[5]
                        && trimmed[6] == lit[6] && trimmed[7] == lit[7] && trimmed[8] == lit[8]);
                    assert(false);
                }
            }
        }
        if has_prefix {
            let kept = content.substring_char(a, b).to_owned();
            result.push(kept);
        } else {
            // A colon anywhere in the trimmed line?
            let mut c: usize = a;
            let mut has_colon: bool = false;
            while c < b && !has_colon
                invariant
                    a <= c <= b <= n,
                    n == s.len(),
                    s == content@,
                    has_colon ==> c > a && s[c - 1] == ':',
                    !has_colon ==> forall|k: int| a <= k < c ==> s[k] != ':',
                decreases b - c,
            {
                if content.get_char(c) == ':' {
                    has_colon = true;
                }
                c = c + 1;
            }
            proof {
                if has_colon {
                    assert(trimmed[c - 1 - a] == s[c - 1]);
                    assert(spec_contains_colon(trimmed));
                } else {
                    assert(forall|k: int| 0 <= k < trimmed.len() ==> trimmed[k] == s[k + a]);
                    assert(!spec_contains_colon(trimmed));
                }
            }
            if has_colon && b > a && !(content.get_char(a) == '#') {
                let kept = String::from_str("socks5://").concat(content.substring_char(a, b));
                result.push(kept);
            }
        }
        // One line consumed: the remaining text parses to the rest.
        proof {
            let tail = s.skip(i as int);
            let next: int = if j < n {
                j + 1
            } else {
                n as int
            };
            if j < n {
                assert(tail.subrange(j - i + 1, tail.len() as int) =~= s.skip(j + 1));
            } else {
                assert(s.skip(n as int) =~= Seq::<char>::empty());
            }
            assert(spec_parse_proxy_list(tail) == (match spec_kept_line(trimmed) {
                Some(u) => seq![u],
                None => Seq::<Seq<char>>::empty(),
            }) + spec_parse_proxy_list(s.skip(next)));
            match spec_kept_line(trimmed) {
                Some(u) => {
                    assert(result.deep_view() =~= pre_deep.push(u));
                    assert(pre_deep.push(u) =~= pre_deep + seq![u]);
                },
                None => {
                    assert(result.deep_view() =~= pre_deep);
                },
            }
            assert(result.deep_view() + spec_parse_proxy_list(s.skip(next)) =~= pre_deep
                + spec_parse_proxy_list(tail));
        }
        i = if j < n {
            j + 1
        } else {
            n
        };
    }
    proof {
        assert(s.skip(n as int) =~= Seq::<char>::empty());
        assert(result.deep_view() =~= spec_parse_proxy_list(s));
    }
    result
}

} // verus!
