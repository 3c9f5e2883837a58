use vstd::prelude::*;

use crate::text::{
    join_lines, join_lines_chars, lemma_join_lines_of, lemma_line_end, lemma_lines_concat,
    lines_of, split_lines, str_chars, string_from_chars, strip_both_chars, sub_chars, trim, views,
};

verus! {

/// The kind of front matter a prompt template starts with.
#[derive(Debug)]
pub enum FrondmatterKind {
    Raw(String),
}

/// The text of a front matter.
pub open spec fn frontmatter_text(k: FrondmatterKind) -> Seq<char> {
    match k {
        FrondmatterKind::Raw(s) => s@,
    }
}

/// The line that opens and closes a front matter block.
pub open spec fn is_frontmatter_marker(line: Seq<char>) -> bool {
    line == seq!['-', '-', '-']
}

/// The state after reading one more line: a marker line opens or closes a
/// front matter block and belongs to neither part; any other line joins
/// the front matter inside a block and the prompt outside one.
pub open spec fn split_step(
    state: (Seq<Seq<char>>, Seq<Seq<char>>, bool),
    line: Seq<char>,
) -> (Seq<Seq<char>>, Seq<Seq<char>>, bool) {
    let (fm, pr, open) = state;
    if is_frontmatter_marker(line) {
        (fm, pr, !open)
    } else if open {
        (fm.push(line), pr, open)
    } else {
        (fm, pr.push(line), open)
    }
}

/// The lines of front matter, the lines of prompt, and whether a front
/// matter block is open, after reading `lines` in order.
pub open spec fn split_state(lines: Seq<Seq<char>>) -> (Seq<Seq<char>>, Seq<Seq<char>>, bool)
    decreases lines.len(),
{
    if lines.len() == 0 {
        (seq![], seq![], false)
    } else {
        split_step(split_state(lines.drop_last()), lines.last())
    }
}

/// The state after reading `lines` from `state` on.
pub open spec fn split_from(
    state: (Seq<Seq<char>>, Seq<Seq<char>>, bool),
    lines: Seq<Seq<char>>,
) -> (Seq<Seq<char>>, Seq<Seq<char>>, bool)
    decreases lines.len(),
{
    if lines.len() == 0 {
        state
    } else {
        split_step(split_from(state, lines.drop_last()), lines.last())
    }
}

/// The front matter (absent when no line fell inside a block) and the
/// prompt text of a template, each its lines joined with `'\n'`.
pub open spec fn frontmatter_split(raw: Seq<char>) -> (Option<Seq<char>>, Seq<char>) {
    let (fm, pr, _) = split_state(lines_of(raw));
    (if fm.len() == 0 { None } else { Some(join_lines(fm)) }, join_lines(pr))
}

/// The front matter that counts (one holding something besides whitespace)
/// and the prompt text of a template.
pub open spec fn parsed_prompt(raw: Seq<char>) -> (Option<Seq<char>>, Seq<char>) {
    let (fm, pr) = frontmatter_split(raw);
    match fm {
        Some(f) => if trim(f).len() > 0 {
            (Some(f), pr)
        } else {
            (None, pr)
        },
        None => (None, pr),
    }
}

/// The marker line `---`.
pub open spec fn marker() -> Seq<char> {
    seq!['-', '-', '-']
}

/// A text that splits into lines and joins back unchanged, none of whose
/// lines is a marker: no `'\r'`, no final `'\n'`, no line `---`.
pub open spec fn plain_block(s: Seq<char>) -> bool {
    &&& forall|i: int| 0 <= i < s.len() ==> s[i] != '\r'
    &&& (s.len() == 0 || s.last() != '\n')
    &&& forall|i: int| 0 <= i < lines_of(s).len() ==> !is_frontmatter_marker(#[trigger] lines_of(s)[i])
}

proof fn lemma_split_concat(a: Seq<Seq<char>>, b: Seq<Seq<char>>)
    ensures
        split_state(a + b) == split_from(split_state(a), b),
    decreases b.len(),
{
    if b.len() == 0 {
        assert(a + b =~= a);
    } else {
        assert((a + b).drop_last() =~= a + b.drop_last());
        assert((a + b).last() == b.last());
        lemma_split_concat(a, b.drop_last());
    }
}

proof fn lemma_split_plain(
    state: (Seq<Seq<char>>, Seq<Seq<char>>, bool),
    b: Seq<Seq<char>>,
)
    requires
        forall|i: int| 0 <= i < b.len() ==> !is_frontmatter_marker(#[trigger] b[i]),
    ensures
        split_from(state, b) == (if state.2 {
            (state.0 + b, state.1, true)
        } else {
            (state.0, state.1 + b, false)
        }),
    decreases b.len(),
{
    if b.len() > 0 {
        assert(!is_frontmatter_marker(b[b.len() - 1]));
        lemma_split_plain(state, b.drop_last());
        if state.2 {
            assert((state.0 + b.drop_last()).push(b.last()) =~= state.0 + b);
        } else {
            assert((state.1 + b.drop_last()).push(b.last()) =~= state.1 + b);
        }
    } else {
        assert(state.0 + b =~= state.0);
        assert(state.1 + b =~= state.1);
    }
}

proof fn lemma_marker_lines()
    ensures
        lines_of(marker()) == seq![marker()],
{
    lemma_line_end(marker(), 3);
}

/// The front matter of a parsed template, when there is one, holds more
/// than whitespace; the prompt part is the same whether or not it counts.
pub proof fn lemma_frontmatter_not_blank(raw: Seq<char>)
    ensures
        parsed_prompt(raw).0 matches Some(f) ==> trim(f).len() > 0,
        parsed_prompt(raw).1 == frontmatter_split(raw).1,
        parsed_prompt(raw).0 is Some ==> parsed_prompt(raw).0 == frontmatter_split(raw).0,
{
}

/// A template without marker lines has no front matter; its prompt is the
/// template itself.
pub proof fn lemma_no_frontmatter(p: Seq<char>)
    requires
        plain_block(p),
    ensures
        frontmatter_split(p) == (None::<Seq<char>>, p),
        parsed_prompt(p) == (None::<Seq<char>>, p),
{
    let lp = lines_of(p);
    lemma_split_concat(seq![], lp);
    assert(Seq::<Seq<char>>::empty() + lp =~= lp);
    lemma_split_plain((seq![], seq![], false), lp);
    assert(Seq::<Seq<char>>::empty() + lp =~= lp);
    lemma_join_lines_of(p);
}

/// A template that opens with a front matter block, a `---` line, the
/// front matter and another `---` line, gives that front matter and the
/// rest as its prompt; the front matter counts when it holds more than
/// whitespace.
pub proof fn lemma_frontmatter_block(f: Seq<char>, p: Seq<char>)
    requires
        f.len() > 0,
        plain_block(f),
        plain_block(p),
    ensures
        ({
            let raw = marker() + seq!['\n'] + f + seq!['\n'] + marker() + seq!['\n'] + p;
            &&& frontmatter_split(raw) == (Some(f), p)
            &&& parsed_prompt(raw) == (if trim(f).len() > 0 {
                (Some(f), p)
            } else {
                (None, p)
            })
        }),
{
    let m = marker();
    let nl = seq!['\n'];
    let raw = m + nl + f + nl + m + nl + p;
    let y2 = m + nl + p;
    let y1 = f + nl + y2;
    assert(raw =~= m + nl + y1);
    lemma_lines_concat(m, y1);
    lemma_lines_concat(f, y2);
    lemma_lines_concat(m, p);
    lemma_marker_lines();
    let lf = lines_of(f);
    let lp = lines_of(p);
    assert(lines_of(raw) =~= seq![m] + lf + seq![m] + lp);
    let a1 = seq![m];
    let a2 = a1 + lf;
    let a3 = a2 + seq![m];
    assert(split_state(a1) == split_step(split_state(Seq::<Seq<char>>::empty()), m)) by {
        assert(a1.drop_last() =~= Seq::<Seq<char>>::empty());
    }
    assert(split_state(a1) == (Seq::<Seq<char>>::empty(), Seq::<Seq<char>>::empty(), true));
    lemma_split_concat(a1, lf);
    lemma_split_plain(split_state(a1), lf);
    assert(Seq::<Seq<char>>::empty() + lf =~= lf);
    assert(split_state(a2) == (lf, Seq::<Seq<char>>::empty(), true));
    assert(a3.drop_last() =~= a2);
    assert(split_state(a3) == (lf, Seq::<Seq<char>>::empty(), false));
    lemma_split_concat(a3, lp);
    lemma_split_plain(split_state(a3), lp);
    assert(Seq::<Seq<char>>::empty() + lp =~= lp);
    assert(a3 + lp =~= seq![m] + lf + seq![m] + lp);
    assert(split_state(lines_of(raw)) == (lf, lp, false));
    lemma_join_lines_of(f);
    lemma_join_lines_of(p);
    assert(lf.len() > 0);
}

/// The views of a parse result.
pub open spec fn parsed_view(p: (Option<FrondmatterKind>, String)) -> (Option<Seq<char>>, Seq<char>) {
    (
        match p.0 {
            Some(k) => Some(frontmatter_text(k)),
            None => None,
        },
        p.1@,
    )
}

/// A prompt template: its raw text, and that text parsed into front matter
/// and prompt.
pub struct Prompt {
    raw: String,
    parsed: (Option<FrondmatterKind>, String),
}

impl Prompt {
    #[verifier::type_invariant]
    spec fn parsed_matches_raw(&self) -> bool {
        parsed_view(self.parsed) == parsed_prompt(self.raw@)
    }

    /// The raw text of the template.
    pub closed spec fn raw_text(&self) -> Seq<char> {
        self.raw@
    }

    pub fn new(source: &str) -> (r: Self)
        ensures
            r.raw_text() == source@,
    {
        let raw = String::from_str(source);
        let parsed = Self::parse_text(&raw);
        Prompt { raw, parsed }
    }

    fn split_text(raw: &String) -> (r: (Option<String>, String))
        ensures
            (match r.0 {
                Some(s) => Some(s@),
                None => None,
            }, r.1@) == frontmatter_split(raw@),
    {
        let chars = str_chars(raw.as_str());
        let lines = split_lines(chars.as_slice());
        let ghost ls = views(lines@);
        let mut frontmatter_lines: Vec<Vec<char>> = Vec::new();
        let mut prompt_lines: Vec<Vec<char>> = Vec::new();
        let mut is_frontmatter = false;
        let mut i: usize = 0;
        assert(ls.take(0) =~= Seq::<Seq<char>>::empty());
        assert(views(frontmatter_lines@) =~= Seq::<Seq<char>>::empty());
        assert(views(prompt_lines@) =~= Seq::<Seq<char>>::empty());
        while i < lines.len()
            invariant
                i <= lines.len(),
                ls == views(lines@),
                ls == lines_of(raw@),
                (views(frontmatter_lines@), views(prompt_lines@), is_frontmatter) == split_state(
                    ls.take(i as int),
                ),
            decreases lines.len() - i,
        {
            let line = &lines[i];
            assert(ls.take(i + 1).drop_last() =~= ls.take(i as int));
            assert(ls.take(i + 1).last() == line@);
            let is_marker = line.len() == 3 && line[0] == '-' && line[1] == '-' && line[2] == '-';
            assert(is_marker == is_frontmatter_marker(line@)) by {
                if is_marker {
                    assert(line@ =~= seq!['-', '-', '-']);
                }
            }
            if is_marker {
                is_frontmatter = !is_frontmatter;
            } else if is_frontmatter {
                let copy = sub_chars(line.as_slice(), 0, line.len());
                assert(copy@ =~= line@);
                let ghost old = frontmatter_lines@;
                frontmatter_lines.push(copy);
                assert(views(frontmatter_lines@) =~= views(old).push(line@));
            } else {
                let copy = sub_chars(line.as_slice(), 0, line.len());
                assert(copy@ =~= line@);
                let ghost old = prompt_lines@;
                prompt_lines.push(copy);
                assert(views(prompt_lines@) =~= views(old).push(line@));
            }
            i = i + 1;
        }
        assert(ls.take(lines.len() as int) =~= ls);
        let prompt_chars = join_lines_chars(&prompt_lines);
        let prompt = string_from_chars(prompt_chars.as_slice());
        if frontmatter_lines.len() == 0 {
            (None, prompt)
        } else {
            let fm_chars = join_lines_chars(&frontmatter_lines);
            (Some(string_from_chars(fm_chars.as_slice())), prompt)
        }
    }

    fn parse_text(raw: &String) -> (r: (Option<FrondmatterKind>, String))
        ensures
            parsed_view(r) == parsed_prompt(raw@),
    {
        let (maybe_frontmatter, prompt) = Self::split_text(raw);
        match maybe_frontmatter {
            None => (None, prompt),
            Some(frontmatter_raw) => {
                let chars = str_chars(frontmatter_raw.as_str());
                let trimmed = strip_both_chars(chars.as_slice(), true);
                if trimmed.len() > 0 {
                    (Some(FrondmatterKind::Raw(frontmatter_raw)), prompt)
                } else {
                    (None, prompt)
                }
            },
        }
    }

    /// The template split into its front matter lines (`None` when no line
    /// lies between markers) and its prompt lines, each joined with `'\n'`.
    pub fn split_prompt(&self) -> (r: (Option<String>, String))
        ensures
            (match r.0 {
                Some(s) => Some(s@),
                None => None,
            }, r.1@) == frontmatter_split(self.raw_text()),
    {
        Self::split_text(&self.raw)
    }

    /// The template parsed: its front matter, kept only where it holds more
    /// than whitespace, and its prompt.
    pub fn parse(&self) -> (r: (Option<FrondmatterKind>, String))
        ensures
            parsed_view(r) == parsed_prompt(self.raw_text()),
    {
        Self::parse_text(&self.raw)
    }

    /// The parse of the template, computed once.
    pub fn parse_memoized(&self) -> (r: &(Option<FrondmatterKind>, String))
        ensures
            parsed_view(*r) == parsed_prompt(self.raw_text()),
    {
        proof {
            use_type_invariant(self);
        }
        &self.parsed
    }

    /// The prompt text of the template.
    pub fn prompt(&self) -> (r: &str)
        ensures
            r@ == parsed_prompt(self.raw_text()).1,
    {
        self.parse_memoized().1.as_str()
    }

    /// The front matter of the template, if it holds more than whitespace.
    pub fn frontmatter(&self) -> (r: Option<&FrondmatterKind>)
        ensures
            match r {
                Some(k) => parsed_prompt(self.raw_text()).0 == Some(frontmatter_text(*k)),
                None => parsed_prompt(self.raw_text()).0 is None,
            },
    {
        match &self.parse_memoized().0 {
            Some(k) => Some(k),
            None => None,
        }
    }
}

} // verus!
