//! Character-level text handling shared by the prompt parser, the URL
//! builders and the provider descriptions: Unicode whitespace, trimming,
//! splitting into lines and joining lines back together.
use vstd::prelude::*;

verus! {

// ---------------------------------------------------------------------------
// Specifications
// ---------------------------------------------------------------------------

/// Unicode `White_Space`, the property that `char::is_whitespace` tests.
pub open spec fn is_unicode_whitespace(c: char) -> bool {
    ||| ('\u{9}' <= c && c <= '\u{d}')
    ||| c == ' '
    ||| c == '\u{85}'
    ||| c == '\u{a0}'
    ||| c == '\u{1680}'
    ||| ('\u{2000}' <= c && c <= '\u{200a}')
    ||| c == '\u{2028}'
    ||| c == '\u{2029}'
    ||| c == '\u{202f}'
    ||| c == '\u{205f}'
    ||| c == '\u{3000}'
}

/// The character class that a trimming operation removes: Unicode
/// whitespace when `whitespace` holds, else the slash `/`.
pub open spec fn trims(whitespace: bool, c: char) -> bool {
    if whitespace {
        is_unicode_whitespace(c)
    } else {
        c == '/'
    }
}

/// `s` without its leading characters of the class.
pub open spec fn strip_leading(s: Seq<char>, whitespace: bool) -> Seq<char>
    decreases s.len(),
{
    if s.len() > 0 && trims(whitespace, s[0]) {
        strip_leading(s.drop_first(), whitespace)
    } else {
        s
    }
}

/// `s` without its trailing characters of the class.
pub open spec fn strip_trailing(s: Seq<char>, whitespace: bool) -> Seq<char>
    decreases s.len(),
{
    if s.len() > 0 && trims(whitespace, s.last()) {
        strip_trailing(s.drop_last(), whitespace)
    } else {
        s
    }
}

/// What `str::trim` returns (whitespace) or `str::trim_matches('/')`
/// returns (slashes).
pub open spec fn strip_both(s: Seq<char>, whitespace: bool) -> Seq<char> {
    strip_trailing(strip_leading(s, whitespace), whitespace)
}

/// `str::trim`.
pub open spec fn trim(s: Seq<char>) -> Seq<char> {
    strip_both(s, true)
}

/// `str::trim_matches('/')`.
pub open spec fn trim_slashes(s: Seq<char>) -> Seq<char> {
    strip_both(s, false)
}

/// The index of the first `'\n'` in `s`, or `s.len()` when there is none.
pub open spec fn line_end(s: Seq<char>) -> int
    decreases s.len(),
{
    if s.len() == 0 || s[0] == '\n' {
        0
    } else {
        1 + line_end(s.drop_first())
    }
}

/// A line that ended with `'\n'` loses one `'\r'` before it.
pub open spec fn strip_cr(line: Seq<char>) -> Seq<char> {
    if line.len() > 0 && line.last() == '\r' {
        line.drop_last()
    } else {
        line
    }
}

/// What `str::lines` yields: the text split at each `'\n'`, a `'\r'` right
/// before a `'\n'` dropped, and no empty line after a final `'\n'`.
pub open spec fn lines_of(s: Seq<char>) -> Seq<Seq<char>>
    decreases s.len(),
{
    let k = line_end(s);
    if s.len() == 0 {
        seq![]
    } else if 0 <= k < s.len() {
        seq![strip_cr(s.take(k))] + lines_of(s.skip(k + 1))
    } else {
        seq![s]
    }
}

/// `lines.join("\n")`.
pub open spec fn join_lines(lines: Seq<Seq<char>>) -> Seq<char>
    decreases lines.len(),
{
    if lines.len() == 0 {
        seq![]
    } else if lines.len() == 1 {
        lines[0]
    } else {
        join_lines(lines.drop_last()) + seq!['\n'] + lines.last()
    }
}

/// The endpoint with whitespace (when `trim_whitespace` holds) and then
/// slashes trimmed from both ends, followed by `path`: what
/// `format!("{}{path}", endpoint.trim().trim_matches('/'))` and
/// `format!("{}{path}", endpoint.trim_matches('/'))` build.
pub open spec fn endpoint_url_with(endpoint: Seq<char>, trim_whitespace: bool, path: Seq<char>) -> Seq<char> {
    let base = if trim_whitespace {
        trim(endpoint)
    } else {
        endpoint
    };
    trim_slashes(base) + path
}

/// The character sequences held by a vector of lines.
pub open spec fn views(v: Seq<Vec<char>>) -> Seq<Seq<char>> {
    v.map_values(|x: Vec<char>| x@)
}

/// The concatenation of all the pieces.
pub open spec fn concat_all(pieces: Seq<Seq<char>>) -> Seq<char>
    decreases pieces.len(),
{
    if pieces.len() == 0 {
        seq![]
    } else {
        concat_all(pieces.drop_last()) + pieces.last()
    }
}

/// The characters of an optional owned string.
pub open spec fn opt_view(o: Option<String>) -> Option<Seq<char>> {
    match o {
        Some(s) => Some(s@),
        None => None,
    }
}

/// The characters of an optional borrowed string.
pub open spec fn opt_str_view(o: Option<&str>) -> Option<Seq<char>> {
    match o {
        Some(s) => Some(s@),
        None => None,
    }
}

// ---------------------------------------------------------------------------
// Lemmas
// ---------------------------------------------------------------------------

/// The first `'\n'` of a text is where `line_end` stops.
pub proof fn lemma_line_end(t: Seq<char>, k: int)
    requires
        0 <= k <= t.len(),
        forall|j: int| 0 <= j < k ==> t[j] != '\n',
        k < t.len() ==> t[k] == '\n',
    ensures
        line_end(t) == k,
    decreases k,
{
    if k > 0 {
        lemma_line_end(t.drop_first(), k - 1);
    }
}

/// What `line_end` finds: no `'\n'` before it, and a `'\n'` at it unless
/// it is the end.
pub proof fn lemma_line_end_props(s: Seq<char>)
    ensures
        0 <= line_end(s) <= s.len(),
        forall|j: int| 0 <= j < line_end(s) ==> s[j] != '\n',
        line_end(s) < s.len() ==> s[line_end(s)] == '\n',
    decreases s.len(),
{
    if s.len() > 0 && s[0] != '\n' {
        lemma_line_end_props(s.drop_first());
        assert forall|j: int| 0 <= j < line_end(s) implies s[j] != '\n' by {
            if j > 0 {
                assert(s[j] == s.drop_first()[j - 1]);
            }
        }
    }
}

/// A text that ends with neither `'\n'` nor `'\r'` keeps its lines when
/// a newline and more text follow it.
pub proof fn lemma_lines_concat(x: Seq<char>, y: Seq<char>)
    requires
        x.len() > 0,
        x.last() != '\n',
        x.last() != '\r',
    ensures
        lines_of(x + seq!['\n'] + y) == lines_of(x) + lines_of(y),
    decreases x.len(),
{
    let t = x + seq!['\n'] + y;
    let k = line_end(x);
    lemma_line_end_props(x);
    if k == x.len() {
        lemma_line_end(t, x.len() as int);
        assert(t.take(x.len() as int) =~= x);
        assert(t.skip(x.len() as int + 1) =~= y);
        assert(lines_of(x) == seq![x]);
        assert(lines_of(t) =~= seq![x] + lines_of(y));
    } else {
        assert(k < x.len() - 1);
        assert forall|j: int| 0 <= j < k implies t[j] != '\n' by {
            assert(t[j] == x[j]);
        }
        lemma_line_end(t, k);
        let rest = x.skip(k + 1);
        assert(t.take(k) =~= x.take(k));
        assert(t.skip(k + 1) =~= rest + seq!['\n'] + y);
        assert(rest.last() == x.last());
        lemma_lines_concat(rest, y);
        assert(lines_of(t) =~= seq![strip_cr(x.take(k))] + lines_of(rest) + lines_of(y));
    }
}

/// Joining a line before at least one more line puts a `'\n'` between.
pub proof fn lemma_join_cons(a: Seq<char>, ls: Seq<Seq<char>>)
    requires
        ls.len() > 0,
    ensures
        join_lines(seq![a] + ls) == a + seq!['\n'] + join_lines(ls),
    decreases ls.len(),
{
    let s = seq![a] + ls;
    assert(s.drop_last() =~= seq![a] + ls.drop_last());
    assert(s.last() == ls.last());
    if ls.len() == 1 {
        assert(s.drop_last() =~= seq![a]);
        assert(join_lines(seq![a]) == a);
        assert(join_lines(ls) == ls[0]);
        assert(join_lines(s) == join_lines(s.drop_last()) + seq!['\n'] + s.last());
    } else {
        lemma_join_cons(a, ls.drop_last());
        assert(join_lines(s) =~= a + seq!['\n'] + join_lines(ls));
    }
}

/// Splitting a text into lines and joining them with `'\n'` gives the
/// text back, when it holds no `'\r'` and does not end with `'\n'`.
pub proof fn lemma_join_lines_of(s: Seq<char>)
    requires
        forall|i: int| 0 <= i < s.len() ==> s[i] != '\r',
        s.len() == 0 || s.last() != '\n',
    ensures
        join_lines(lines_of(s)) == s,
    decreases s.len(),
{
    if s.len() > 0 {
        let k = line_end(s);
        lemma_line_end_props(s);
        if k < s.len() {
            assert(k < s.len() - 1);
            let rest = s.skip(k + 1);
            assert(rest.last() == s.last());
            lemma_join_lines_of(rest);
            assert(strip_cr(s.take(k)) == s.take(k)) by {
                if k > 0 {
                    assert(s.take(k).last() == s[k - 1]);
                }
            }
            assert(lines_of(rest).len() > 0);
            lemma_join_cons(s.take(k), lines_of(rest));
            assert(s =~= s.take(k) + seq!['\n'] + rest);
        }
    }
}

proof fn lemma_strip_leading_append(x: Seq<char>, c: char, whitespace: bool)
    requires
        strip_leading(x, whitespace).len() > 0,
    ensures
        strip_leading(x + seq![c], whitespace) == strip_leading(x, whitespace) + seq![c],
    decreases x.len(),
{
    assert((x + seq![c])[0] == x[0]);
    if trims(whitespace, x[0]) {
        assert((x + seq![c]).drop_first() =~= x.drop_first() + seq![c]);
        lemma_strip_leading_append(x.drop_first(), c, whitespace);
    }
}

proof fn lemma_strip_leading_keeps_last(x: Seq<char>, whitespace: bool)
    requires
        x.len() > 0,
        !trims(whitespace, x.last()),
    ensures
        strip_leading(x, whitespace).len() > 0,
        strip_leading(x, whitespace).last() == x.last(),
    decreases x.len(),
{
    if trims(whitespace, x[0]) {
        assert(x.len() > 1);
        assert(x.drop_first().last() == x.last());
        lemma_strip_leading_keeps_last(x.drop_first(), whitespace);
    }
}

/// One trailing slash on an endpoint that ends with neither whitespace nor
/// a slash does not change the URLs built from it.
pub proof fn lemma_trailing_slash_ignored(
    endpoint: Seq<char>,
    trim_whitespace: bool,
    path: Seq<char>,
)
    requires
        endpoint.len() > 0,
        !is_unicode_whitespace(endpoint.last()),
        endpoint.last() != '/',
    ensures
        endpoint_url_with(endpoint + seq!['/'], trim_whitespace, path) == endpoint_url_with(
            endpoint,
            trim_whitespace,
            path,
        ),
{
    let slashed = endpoint + seq!['/'];
    let z = if trim_whitespace {
        strip_leading(endpoint, true)
    } else {
        endpoint
    };
    if trim_whitespace {
        lemma_strip_leading_keeps_last(endpoint, true);
        lemma_strip_leading_append(endpoint, '/', true);
        assert((z + seq!['/']).last() == '/');
        assert(strip_trailing(z + seq!['/'], true) == z + seq!['/']);
        assert(strip_trailing(z, true) == z);
        assert(trim(slashed) == z + seq!['/']);
        assert(trim(endpoint) == z);
    }
    assert(z.len() > 0 && z.last() == endpoint.last());
    lemma_strip_leading_keeps_last(z, false);
    lemma_strip_leading_append(z, '/', false);
    let q = strip_leading(z, false);
    assert((q + seq!['/']).drop_last() =~= q);
    assert(strip_trailing(q + seq!['/'], false) == strip_trailing(q, false));
}

// ---------------------------------------------------------------------------
// Executable functions
// ---------------------------------------------------------------------------

/// `String::push`, which appends one character.
#[verifier::external_body]
fn push_char(s: &mut String, c: char)
    ensures
        final(s)@ == old(s)@.push(c),
{
    s.push(c);
}

/// `o.as_deref()` for an optional owned string.
pub fn opt_as_str(o: &Option<String>) -> (r: Option<&str>)
    ensures
        opt_str_view(r) == opt_view(*o),
{
    match o {
        Some(s) => Some(s.as_str()),
        None => None,
    }
}

/// A copy of an optional owned string.
pub fn clone_opt_string(o: &Option<String>) -> (r: Option<String>)
    ensures
        r == *o,
{
    match o {
        Some(s) => Some(s.clone()),
        None => None,
    }
}

/// An owned copy of an optional borrowed string.
pub fn opt_to_string(o: Option<&str>) -> (r: Option<String>)
    ensures
        opt_view(r) == opt_str_view(o),
{
    match o {
        Some(s) => Some(String::from_str(s)),
        None => None,
    }
}

/// The characters of `s`, in order.
pub fn str_chars(s: &str) -> (r: Vec<char>)
    ensures
        r@ == s@,
{
    let mut r: Vec<char> = Vec::new();
    for c in it: s.chars()
        invariant
            r@ == it.seq().take(it.index() as int),
    {
        r.push(c);
    }
    r
}

/// The string made of the characters of `v`.
pub fn string_from_chars(v: &[char]) -> (r: String)
    ensures
        r@ == v@,
{
    let mut r = String::new();
    let mut i: usize = 0;
    while i < v.len()
        invariant
            i <= v.len(),
            r@ == v@.take(i as int),
        decreases v.len() - i,
    {
        push_char(&mut r, v[i]);
        assert(v@.take(i as int).push(v@[i as int]) =~= v@.take(i + 1));
        i = i + 1;
    }
    assert(v@.take(v.len() as int) =~= v@);
    r
}

/// `char::is_whitespace`.
pub fn is_whitespace(c: char) -> (r: bool)
    ensures
        r == is_unicode_whitespace(c),
{
    ('\u{9}' <= c && c <= '\u{d}') || c == ' ' || c == '\u{85}' || c == '\u{a0}' || c
        == '\u{1680}' || ('\u{2000}' <= c && c <= '\u{200a}') || c == '\u{2028}' || c
        == '\u{2029}' || c == '\u{202f}' || c == '\u{205f}' || c == '\u{3000}'
}

fn trims_exec(whitespace: bool, c: char) -> (r: bool)
    ensures
        r == trims(whitespace, c),
{
    if whitespace {
        is_whitespace(c)
    } else {
        c == '/'
    }
}

/// The characters `v[from..to]`.
pub fn sub_chars(v: &[char], from: usize, to: usize) -> (r: Vec<char>)
    requires
        from <= to <= v.len(),
    ensures
        r@ == v@.subrange(from as int, to as int),
{
    let mut r: Vec<char> = Vec::new();
    let mut i = from;
    while i < to
        invariant
            from <= i <= to <= v.len(),
            r@ == v@.subrange(from as int, i as int),
        decreases to - i,
    {
        r.push(v[i]);
        assert(v@.subrange(from as int, i as int).push(v@[i as int]) =~= v@.subrange(
            from as int,
            i + 1,
        ));
        i = i + 1;
    }
    r
}

/// `v` without its leading and trailing characters of the class.
pub fn strip_both_chars(v: &[char], whitespace: bool) -> (r: Vec<char>)
    ensures
        r@ == strip_both(v@, whitespace),
{
    let mut start: usize = 0;
    assert(v@.skip(0) =~= v@);
    while start < v.len() && trims_exec(whitespace, v[start])
        invariant
            start <= v.len(),
            strip_leading(v@, whitespace) == strip_leading(v@.skip(start as int), whitespace),
        decreases v.len() - start,
    {
        assert(v@.skip(start as int).drop_first() =~= v@.skip(start + 1));
        start = start + 1;
    }
    let ghost lead = v@.skip(start as int);
    assert(strip_leading(v@, whitespace) == lead);
    let mut end: usize = v.len();
    while end > start && trims_exec(whitespace, v[end - 1])
        invariant
            start <= end <= v.len(),
            lead == v@.skip(start as int),
            strip_trailing(lead, whitespace) == strip_trailing(
                v@.subrange(start as int, end as int),
                whitespace,
            ),
        decreases end,
    {
        assert(v@.subrange(start as int, end as int).drop_last() =~= v@.subrange(
            start as int,
            end - 1,
        ));
        end = end - 1;
    }
    assert(lead =~= v@.subrange(start as int, v.len() as int));
    sub_chars(v, start, end)
}

/// `s.trim()`.
pub fn trim_str(s: &str) -> (r: String)
    ensures
        r@ == trim(s@),
{
    let v = str_chars(s);
    let t = strip_both_chars(v.as_slice(), true);
    string_from_chars(t.as_slice())
}

/// `s.trim_matches('/')`.
pub fn trim_slashes_str(s: &str) -> (r: String)
    ensures
        r@ == trim_slashes(s@),
{
    let v = str_chars(s);
    let t = strip_both_chars(v.as_slice(), false);
    string_from_chars(t.as_slice())
}

/// The URL of `path` under the endpoint, with the endpoint trimmed of
/// slashes (and first of whitespace, when `trim_whitespace` holds).
pub fn endpoint_with_path(endpoint: &str, trim_whitespace: bool, path: &str) -> (r: String)
    ensures
        r@ == endpoint_url_with(endpoint@, trim_whitespace, path@),
{
    let chars = str_chars(endpoint);
    let base = if trim_whitespace {
        strip_both_chars(chars.as_slice(), true)
    } else {
        chars
    };
    let stripped = strip_both_chars(base.as_slice(), false);
    let mut r = string_from_chars(stripped.as_slice());
    r.append(path);
    r
}

/// `s.lines()`, each line as its characters.
pub fn split_lines(s: &[char]) -> (r: Vec<Vec<char>>)
    ensures
        views(r@) == lines_of(s@),
{
    let mut lines: Vec<Vec<char>> = Vec::new();
    let mut cur: Vec<char> = Vec::new();
    let mut i: usize = 0;
    assert(cur@ + s@.skip(0) =~= s@);
    assert(views(lines@) =~= Seq::<Seq<char>>::empty());
    while i < s.len()
        invariant
            i <= s.len(),
            forall|j: int| 0 <= j < cur@.len() ==> cur@[j] != '\n',
            views(lines@) + lines_of(cur@ + s@.skip(i as int)) == lines_of(s@),
        decreases s.len() - i,
    {
        let c = s[i];
        let ghost t = cur@ + s@.skip(i as int);
        let ghost old_cur = cur@;
        let ghost before = views(lines@);
        if c == '\n' {
            proof {
                lemma_line_end(t, old_cur.len() as int);
                assert(t.take(old_cur.len() as int) =~= old_cur);
                assert(t.skip(old_cur.len() as int + 1) =~= s@.skip(i + 1));
            }
            let mut line = cur;
            if line.len() > 0 && line[line.len() - 1] == '\r' {
                line.pop();
            }
            assert(line@ == strip_cr(old_cur));
            lines.push(line);
            cur = Vec::new();
            proof {
                assert(views(lines@) =~= before.push(strip_cr(old_cur)));
                assert(cur@ + s@.skip(i + 1) =~= s@.skip(i + 1));
                assert(lines_of(t) == seq![strip_cr(old_cur)] + lines_of(s@.skip(i + 1)));
                assert(views(lines@) + lines_of(s@.skip(i + 1)) =~= before + lines_of(t));
            }
        } else {
            cur.push(c);
            assert(cur@ + s@.skip(i + 1) =~= old_cur + s@.skip(i as int));
        }
        i = i + 1;
    }
    assert(cur@ + s@.skip(s.len() as int) =~= cur@);
    if cur.len() > 0 {
        proof {
            lemma_line_end(cur@, cur@.len() as int);
        }
        let ghost before = views(lines@);
        let ghost cur_view = cur@;
        lines.push(cur);
        assert(views(lines@) =~= before + lines_of(cur_view));
    } else {
        assert(views(lines@) + lines_of(cur@) =~= views(lines@));
    }
    lines
}


/// `lines.join("\n")`.
pub fn join_lines_chars(lines: &Vec<Vec<char>>) -> (r: Vec<char>)
    ensures
        r@ == join_lines(views(lines@)),
{
    let mut r: Vec<char> = Vec::new();
    let mut i: usize = 0;
    while i < lines.len()
        invariant
            i <= lines.len(),
            r@ == join_lines(views(lines@).take(i as int)),
        decreases lines.len() - i,
    {
        let ghost before = r@;
        if i > 0 {
            r.push('\n');
        }
        let line = &lines[i];
        let mut j: usize = 0;
        while j < line.len()
            invariant
                j <= line.len(),
                line == &lines[i as int],
                r@ == (if i > 0 { before + seq!['\n'] } else { before }) + line@.take(j as int),
            decreases line.len() - j,
        {
            r.push(line[j]);
            assert(line@.take(j as int).push(line@[j as int]) =~= line@.take(j + 1));
            j = j + 1;
        }
        proof {
            let ls = views(lines@);
            assert(line@.take(line.len() as int) =~= line@);
            assert(ls.take(i + 1).drop_last() =~= ls.take(i as int));
            assert(ls.take(i + 1).last() == line@);
            if i == 0 {
                assert(before =~= Seq::<char>::empty());
                assert(r@ =~= line@);
            }
        }
        i = i + 1;
    }
    assert(views(lines@).take(lines.len() as int) =~= views(lines@));
    r
}

} // verus!
