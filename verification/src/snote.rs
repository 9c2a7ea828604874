//! The note format: a headline followed by paragraphs.
//!
//! A note starts with `* ` and a headline that runs to the end of its line;
//! after it come paragraphs, separated by runs of at least two line breaks.
//! A single line break stays inside its paragraph.  Each parsed section
//! carries its span in character positions, and a section's span includes
//! the separating line breaks after it, so that consecutive sections are
//! adjacent.  Text that does not fit the format is not rejected: it degrades
//! to one paragraph spanning the whole text.
//!
//! Line breaks are `\r\n` or one of `\n`, `\x0B`, `\x0C`, `\r`, `\u{0085}`,
//! `\u{2028}`, `\u{2029}`; padding around a note is any run of line breaks,
//! spaces and tabs.

use vstd::prelude::*;

verus! {

/// A single line-break character.  `\r\n` counts as one line break of two
/// characters, handled by [`spec_newline_len`].
pub open spec fn is_newline_char(c: char) -> bool {
    c == '\n' || c == '\x0B' || c == '\x0C' || c == '\r' || c == '\u{0085}' || c == '\u{2028}'
        || c == '\u{2029}'
}

/// Characters that may pad a note at either end: line breaks, spaces, tabs.
pub open spec fn is_padding_char(c: char) -> bool {
    c == ' ' || c == '\t' || is_newline_char(c)
}

/// Length in characters of the line break starting at `i`: 2 for `\r\n`,
/// 1 for a single line-break character, 0 when none starts here.
pub open spec fn spec_newline_len(s: Seq<char>, i: int) -> int {
    if 0 <= i < s.len() && s[i] == '\r' && i + 1 < s.len() && s[i + 1] == '\n' {
        2
    } else if 0 <= i < s.len() && is_newline_char(s[i]) {
        1
    } else {
        0
    }
}

/// The run of consecutive line breaks starting at `i`: how many there are,
/// and the position just past them.
pub open spec fn spec_count_newlines(s: Seq<char>, i: int) -> (nat, int)
    decreases s.len() - i,
        when 0 <= i <= s.len()
{
    let l = spec_newline_len(s, i);
    if l == 0 {
        (0, i)
    } else {
        let rest = spec_count_newlines(s, i + l);
        ((rest.0 + 1) as nat, rest.1)
    }
}

pub proof fn lemma_count_newlines_bounds(s: Seq<char>, i: int)
    requires
        0 <= i <= s.len(),
    ensures
        i <= spec_count_newlines(s, i).1 <= s.len(),
        spec_count_newlines(s, i).0 == 0 <==> spec_count_newlines(s, i).1 == i,
    decreases s.len() - i,
{
    let l = spec_newline_len(s, i);
    if l != 0 {
        lemma_count_newlines_bounds(s, i + l);
    }
}

/// Whether a paragraph separator starts at `i`: a run of at least two line
/// breaks, or the end of the text.
pub open spec fn spec_sep_at(s: Seq<char>, i: int) -> bool {
    spec_count_newlines(s, i).0 >= 2 || i >= s.len()
}

/// The first position at or after `i` where a paragraph separator starts.
pub open spec fn spec_content_end(s: Seq<char>, i: int) -> int
    decreases s.len() - i,
        when 0 <= i <= s.len()
{
    if spec_sep_at(s, i) {
        i
    } else {
        spec_content_end(s, i + 1)
    }
}

pub proof fn lemma_content_end_bounds(s: Seq<char>, i: int)
    requires
        0 <= i <= s.len(),
    ensures
        i <= spec_content_end(s, i) <= s.len(),
        spec_sep_at(s, spec_content_end(s, i)),
    decreases s.len() - i,
{
    if !spec_sep_at(s, i) {
        lemma_content_end_bounds(s, i + 1);
    }
}

/// Where the paragraph whose content ends at `j` really ends: a separating
/// run of line breaks belongs to the paragraph before it.
pub open spec fn spec_pad_end(s: Seq<char>, j: int) -> int {
    let cn = spec_count_newlines(s, j);
    if cn.0 >= 2 {
        cn.1
    } else {
        j
    }
}

/// The first position at or after `i` that is not padding.
pub open spec fn spec_skip_padding(s: Seq<char>, i: int) -> int
    decreases s.len() - i,
        when 0 <= i <= s.len()
{
    if i >= s.len() || !is_padding_char(s[i]) {
        i
    } else {
        spec_skip_padding(s, i + 1)
    }
}

/// One section of a note, with its span in character positions.  A span's
/// end includes the line breaks that separate the section from the next
/// one, so consecutive sections are adjacent.
#[derive(Clone, Debug, PartialEq, Eq)]
pub enum SNoteSection {
    Paragraph { start: usize, end: usize },
    Headline { start: usize, end: usize },
}

impl SNoteSection {
    /// The character span this section covers.
    pub open spec fn spec_span(self) -> (usize, usize) {
        match self {
            SNoteSection::Paragraph { start, end } => (start, end),
            SNoteSection::Headline { start, end } => (start, end),
        }
    }

    pub fn span(&self) -> (r: (usize, usize))
        ensures
            r == self.spec_span(),
    {
        match self {
            SNoteSection::Paragraph { start, end } => (*start, *end),
            SNoteSection::Headline { start, end } => (*start, *end),
        }
    }

    /// The span of the section's content; the same as [`Self::span`], since
    /// spans are kept adjacent rather than trimmed.
    pub fn content_span(&self) -> (r: (usize, usize))
        ensures
            r == self.spec_span(),
    {
        self.span()
    }
}

/// The end of a headline's content: the first line break or the end of the
/// text.
pub open spec fn spec_headline_content_end(s: Seq<char>, i: int) -> int
    decreases s.len() - i,
        when 0 <= i <= s.len()
{
    if i >= s.len() || spec_newline_len(s, i) > 0 {
        i
    } else {
        spec_headline_content_end(s, i + 1)
    }
}

pub proof fn lemma_headline_content_end_bounds(s: Seq<char>, i: int)
    requires
        0 <= i <= s.len(),
    ensures
        i <= spec_headline_content_end(s, i) <= s.len(),
        spec_newline_len(s, spec_headline_content_end(s, i)) + spec_headline_content_end(s, i)
            <= s.len(),
    decreases s.len() - i,
{
    if !(i >= s.len() || spec_newline_len(s, i) > 0) {
        lemma_headline_content_end_bounds(s, i + 1);
    }
}

/// A headline at `i`: `* `, content up to the end of the line, and the line
/// break itself.  Yields the section and the position just past it, or
/// nothing when no headline starts at `i`.
pub open spec fn spec_headline_at(s: Seq<char>, i: int) -> Option<(SNoteSection, int)>
    recommends
        0 <= i <= s.len(),
{
    if i + 2 <= s.len() && s[i] == '*' && s[i + 1] == ' ' {
        let j = spec_headline_content_end(s, i + 2);
        let e = j + spec_newline_len(s, j);
        Some((SNoteSection::Headline { start: i as usize, end: e as usize }, e))
    } else {
        None
    }
}

/// The paragraphs from `i` on: each runs to the next separator and absorbs
/// it into its span; parsing stops after a paragraph whose separator is the
/// end of the text, or whose separating line breaks are followed by the end.
/// Yields the sections and the position where parsing stopped (the start of
/// the last separator).
pub open spec fn spec_blocks(s: Seq<char>, i: int) -> (Seq<SNoteSection>, int)
    decreases s.len() - i,
        when 0 <= i <= s.len()
        via spec_blocks_decreases
{
    if i >= s.len() {
        (Seq::empty(), i)
    } else {
        let j = spec_content_end(s, i);
        let e = spec_pad_end(s, j);
        let sec = SNoteSection::Paragraph { start: i as usize, end: e as usize };
        let cn = spec_count_newlines(s, j);
        if cn.0 >= 2 && cn.1 < s.len() {
            let rest = spec_blocks(s, cn.1);
            (seq![sec] + rest.0, rest.1)
        } else {
            (seq![sec], j)
        }
    }
}

#[via_fn]
proof fn spec_blocks_decreases(s: Seq<char>, i: int) {
    if 0 <= i < s.len() {
        lemma_content_end_bounds(s, i);
        let j = spec_content_end(s, i);
        lemma_count_newlines_bounds(s, j);
    }
}

/// The paragraphs parsed from position `i` tile the text: the first starts
/// at `i`, every span stays inside the text and runs forward, and each
/// paragraph ends exactly where the next one starts.
pub proof fn lemma_blocks_well_formed(s: Seq<char>, i: int)
    requires
        0 <= i <= s.len() <= usize::MAX,
    ensures
        ({
            let bs = spec_blocks(s, i);
            &&& i < s.len() ==> bs.0.len() >= 1
            &&& bs.0.len() > 0 ==> bs.0[0].spec_span().0 == i
            &&& forall|k: int|
                0 <= k < bs.0.len() ==> (#[trigger] bs.0[k].spec_span()).0
                    <= bs.0[k].spec_span().1 <= s.len()
            &&& forall|k: int|
                0 <= k < bs.0.len() - 1 ==> (#[trigger] bs.0[k].spec_span()).1 == bs.0[k
                    + 1].spec_span().0
        }),
    decreases s.len() - i,
{
    if i < s.len() {
        lemma_content_end_bounds(s, i);
        let j = spec_content_end(s, i);
        lemma_count_newlines_bounds(s, j);
        let cn = spec_count_newlines(s, j);
        if cn.0 >= 2 && cn.1 < s.len() {
            lemma_blocks_well_formed(s, cn.1);
            let bs = spec_blocks(s, i);
            let rest = spec_blocks(s, cn.1);
            assert(bs.0[0].spec_span().1 == cn.1);
            assert(forall|k: int| 1 <= k < bs.0.len() ==> bs.0[k] == rest.0[k - 1]);
        }
    }
}

/// A parsed note tiles its text too: every span stays inside the text and
/// runs forward, the headline ends where the first paragraph starts, and so
/// on down the list.
pub proof fn lemma_snote_sections_well_formed(s: Seq<char>, v: Seq<SNoteSection>)
    requires
        s.len() <= usize::MAX,
        spec_snote(s) == Some(v),
    ensures
        forall|k: int|
            0 <= k < v.len() ==> (#[trigger] v[k].spec_span()).0 <= v[k].spec_span().1 <= s.len(),
        forall|k: int|
            0 <= k < v.len() - 1 ==> (#[trigger] v[k].spec_span()).1 == v[k + 1].spec_span().0,
{
    let i0 = spec_skip_padding(s, 0);
    lemma_skip_padding_in_text(s, 0);
    match spec_headline_at(s, i0) {
        Some(hc) => {
            lemma_headline_content_end_bounds(s, i0 + 2);
            lemma_blocks_well_formed(s, hc.1);
            let bs = spec_blocks(s, hc.1);
            assert(v == seq![hc.0] + bs.0);
            assert(v[0] == hc.0);
            assert(forall|k: int| 1 <= k < v.len() ==> v[k] == bs.0[k - 1]);
            assert forall|k: int|
                0 <= k < v.len() implies (#[trigger] v[k].spec_span()).0 <= v[k].spec_span().1
                <= s.len() by {
                if k >= 1 {
                    assert((bs.0[k - 1].spec_span()).0 <= bs.0[k - 1].spec_span().1 <= s.len());
                }
            }
            assert forall|k: int|
                0 <= k < v.len() - 1 implies (#[trigger] v[k].spec_span()).1 == v[k
                + 1].spec_span().0 by {
                if k == 0 {
                    assert(bs.0[0].spec_span().0 == hc.1);
                } else {
                    assert((bs.0[k - 1].spec_span()).1 == bs.0[k].spec_span().0);
                }
            }
        },
        None => {},
    }
}

/// Skipping padding never leaves the text.
proof fn lemma_skip_padding_in_text(s: Seq<char>, i: int)
    requires
        0 <= i <= s.len(),
    ensures
        i <= spec_skip_padding(s, i) <= s.len(),
    decreases s.len() - i,
{
    if !(i >= s.len() || !is_padding_char(s[i])) {
        lemma_skip_padding_in_text(s, i + 1);
    }
}

/// A whole note: optional padding, a headline, its paragraphs, optional
/// trailing padding.  The parse succeeds only when it covers the whole
/// text; as the one exception, an empty text is an empty note.
pub open spec fn spec_snote(s: Seq<char>) -> Option<Seq<SNoteSection>> {
    let i0 = spec_skip_padding(s, 0);
    match spec_headline_at(s, i0) {
        Some(hc) => {
            let bs = spec_blocks(s, hc.1);
            let tail = spec_skip_padding(s, bs.1);
            if tail == s.len() {
                Some(seq![hc.0] + bs.0)
            } else {
                None
            }
        },
        None => {
            if s.len() == 0 {
                Some(Seq::empty())
            } else {
                None
            }
        },
    }
}

/// The sections of an arbitrary text: its parse when it is a well-formed
/// note, and otherwise one paragraph spanning the whole text.
pub open spec fn spec_sections(s: Seq<char>) -> Seq<SNoteSection> {
    match spec_snote(s) {
        Some(v) => v,
        None => seq![SNoteSection::Paragraph { start: 0, end: s.len() as usize }],
    }
}

/// The run of line breaks opening the text, as the paragraph separator
/// counts it: at least one line break yields its count, provided it reaches
/// `at_least`; an empty text counts as zero whatever `at_least` is; any
/// other text does not parse.
pub open spec fn spec_newlines_or_end(s: Seq<char>, at_least: usize) -> Option<usize> {
    let cn = spec_count_newlines(s, 0);
    if cn.0 >= 1 {
        if cn.0 >= at_least as nat {
            Some(cn.0 as usize)
        } else {
            None
        }
    } else if s.len() == 0 {
        Some(0)
    } else {
        None
    }
}

/// Count the line breaks opening the text; see [`spec_newlines_or_end`].
pub fn newlines_or_end(s: &str, at_least: usize) -> (r: Option<usize>)
    ensures
        r == spec_newlines_or_end(s@, at_least),
{
    let len = s.unicode_len();
    let cn = count_newlines(s, 0, len);
    if cn.0 >= 1 {
        if cn.0 >= at_least {
            Some(cn.0)
        } else {
            None
        }
    } else if len == 0 {
        Some(0)
    } else {
        None
    }
}

/// Length of the line break starting at `i`, computed.
fn newline_len(s: &str, i: usize, len: usize) -> (r: usize)
    requires
        len == s@.len(),
        i <= len,
    ensures
        r == spec_newline_len(s@, i as int),
{
    if i >= len {
        return 0;
    }
    let c = s.get_char(i);
    if c == '\r' && i + 1 < len {
        if s.get_char(i + 1) == '\n' {
            return 2;
        }
    }
    if c == '\n' || c == '\x0B' || c == '\x0C' || c == '\r' || c == '\u{0085}' || c == '\u{2028}'
        || c == '\u{2029}' {
        1
    } else {
        0
    }
}

/// The run of line breaks from `from` on: its length in line breaks and the
/// position just past it.
fn count_newlines(s: &str, from: usize, len: usize) -> (r: (usize, usize))
    requires
        len == s@.len(),
        from <= len,
    ensures
        r.0 == spec_count_newlines(s@, from as int).0,
        r.1 == spec_count_newlines(s@, from as int).1,
        from <= r.1 <= len,
{
    let mut cur: usize = from;
    let mut count: usize = 0;
    loop
        invariant
            len == s@.len(),
            from <= cur <= len,
            count <= cur - from,
            spec_count_newlines(s@, from as int).0 == count + spec_count_newlines(
                s@,
                cur as int,
            ).0,
            spec_count_newlines(s@, from as int).1 == spec_count_newlines(s@, cur as int).1,
        decreases len - cur,
    {
        let l = newline_len(s, cur, len);
        if l == 0 {
            proof {
                lemma_count_newlines_bounds(s@, from as int);
            }
            return (count, cur);
        }
        cur = cur + l;
        count = count + 1;
    }
}

/// Whether a paragraph separator starts at `i`, computed.
fn sep_at(s: &str, i: usize, len: usize) -> (r: bool)
    requires
        len == s@.len(),
        i <= len,
    ensures
        r == spec_sep_at(s@, i as int),
{
    if i >= len {
        true
    } else {
        let cn = count_newlines(s, i, len);
        cn.0 >= 2
    }
}

/// The first separator position at or after `from`, computed.
fn content_end(s: &str, from: usize, len: usize) -> (r: usize)
    requires
        len == s@.len(),
        from <= len,
    ensures
        r == spec_content_end(s@, from as int),
        from <= r <= len,
{
    let mut cur: usize = from;
    loop
        invariant
            len == s@.len(),
            from <= cur <= len,
            spec_content_end(s@, from as int) == spec_content_end(s@, cur as int),
        decreases len - cur,
    {
        if sep_at(s, cur, len) {
            return cur;
        }
        cur = cur + 1;
    }
}

/// The first non-padding position at or after `from`, computed.
fn skip_padding(s: &str, from: usize, len: usize) -> (r: usize)
    requires
        len == s@.len(),
        from <= len,
    ensures
        r == spec_skip_padding(s@, from as int),
        from <= r <= len,
{
    let mut cur: usize = from;
    loop
        invariant
            len == s@.len(),
            from <= cur <= len,
            spec_skip_padding(s@, from as int) == spec_skip_padding(s@, cur as int),
        decreases len - cur,
    {
        if cur >= len {
            return cur;
        }
        let c = s.get_char(cur);
        let pad = c == ' ' || c == '\t' || c == '\n' || c == '\x0B' || c == '\x0C' || c == '\r'
            || c == '\u{0085}' || c == '\u{2028}' || c == '\u{2029}';
        if !pad {
            return cur;
        }
        cur = cur + 1;
    }
}

/// A headline at `i`, computed: the section and the position just past it.
fn headline_at(s: &str, i: usize, len: usize) -> (r: Option<(SNoteSection, usize)>)
    requires
        len == s@.len(),
        i <= len,
    ensures
        match r {
            Some(hc) => spec_headline_at(s@, i as int) == Some((hc.0, hc.1 as int)) && hc.1 <= len,
            None => spec_headline_at(s@, i as int) is None,
        },
{
    if i < len && i + 1 < len && s.get_char(i) == '*' && s.get_char(i + 1) == ' ' {
        let j = headline_content_end(s, i + 2, len);
        let l = newline_len(s, j, len);
        proof {
            lemma_headline_content_end_bounds(s@, i + 2);
        }
        let e = j + l;
        Some((SNoteSection::Headline { start: i, end: e }, e))
    } else {
        None
    }
}

/// The end of a headline's content, computed.
fn headline_content_end(s: &str, from: usize, len: usize) -> (r: usize)
    requires
        len == s@.len(),
        from <= len,
    ensures
        r == spec_headline_content_end(s@, from as int),
        from <= r <= len,
{
    let mut cur: usize = from;
    loop
        invariant
            len == s@.len(),
            from <= cur <= len,
            spec_headline_content_end(s@, from as int) == spec_headline_content_end(
                s@,
                cur as int,
            ),
        decreases len - cur,
    {
        if cur >= len {
            return cur;
        }
        if newline_len(s, cur, len) > 0 {
            return cur;
        }
        cur = cur + 1;
    }
}

/// Parse one paragraph at the start of the text: its span runs to the first
/// separator and absorbs it.  Nothing parses in an empty text.
pub fn block(s: &str) -> (r: Option<SNoteSection>)
    ensures
        s@.len() == 0 ==> r is None,
        s@.len() > 0 ==> r == Some(
            SNoteSection::Paragraph {
                start: 0,
                end: spec_pad_end(s@, spec_content_end(s@, 0)) as usize,
            },
        ),
{
    let len = s.unicode_len();
    if len == 0 {
        return None;
    }
    let j = content_end(s, 0, len);
    let cn = count_newlines(s, j, len);
    let e: usize = if cn.0 >= 2 {
        cn.1
    } else {
        j
    };
    Some(SNoteSection::Paragraph { start: 0, end: e })
}

/// Parse one headline at the start of the text.
pub fn headline(s: &str) -> (r: Option<SNoteSection>)
    ensures
        match r {
            Some(sec) => spec_headline_at(s@, 0) matches Some(hc) && hc.0 == sec,
            None => spec_headline_at(s@, 0) is None,
        },
{
    let len = s.unicode_len();
    match headline_at(s, 0, len) {
        Some(hc) => Some(hc.0),
        None => None,
    }
}

/// The paragraphs from `from` on, computed, with the position where parsing
/// stopped.
fn blocks_at(s: &str, from: usize, len: usize) -> (r: (Vec<SNoteSection>, usize))
    requires
        len == s@.len(),
        from <= len,
    ensures
        r.0@ == spec_blocks(s@, from as int).0,
        r.1 == spec_blocks(s@, from as int).1,
        r.1 <= len,
{
    let mut secs: Vec<SNoteSection> = Vec::new();
    let mut i: usize = from;
    if i >= len {
        return (secs, i);
    }
    loop
        invariant
            len == s@.len(),
            from <= i < len,
            spec_blocks(s@, from as int).0 == secs@ + spec_blocks(s@, i as int).0,
            spec_blocks(s@, from as int).1 == spec_blocks(s@, i as int).1,
        decreases len - i,
    {
        let j = content_end(s, i, len);
        let cn = count_newlines(s, j, len);
        let e: usize = if cn.0 >= 2 {
            cn.1
        } else {
            j
        };
        let sec = SNoteSection::Paragraph { start: i, end: e };
        secs.push(sec);
        if cn.0 >= 2 && cn.1 < len {
            proof {
                assert(spec_blocks(s@, i as int).0 == seq![sec] + spec_blocks(s@, cn.1 as int).0);
                assert((secs@.drop_last() + seq![sec]) + spec_blocks(s@, cn.1 as int).0 =~= secs@
                    + spec_blocks(s@, cn.1 as int).0);
            }
            i = cn.1;
        } else {
            proof {
                assert(spec_blocks(s@, i as int).0 =~= seq![sec]);
                assert(secs@.drop_last() + seq![sec] =~= secs@);
            }
            return (secs, j);
        }
    }
}

/// The paragraphs of a text, parsed from its start.
pub fn blocks(s: &str) -> (r: Vec<SNoteSection>)
    ensures
        r@ == spec_blocks(s@, 0).0,
{
    let len = s.unicode_len();
    let r = blocks_at(s, 0, len);
    r.0
}

/// Parse a whole note: a headline and its paragraphs, with padding allowed
/// around them.  Fails (yields nothing) when the text is non-empty and not
/// entirely covered by the note.
pub fn snote(s: &str) -> (r: Option<Vec<SNoteSection>>)
    ensures
        match r {
            Some(v) => {
                &&& spec_snote(s@) == Some(v@)
                &&& forall|k: int|
                    0 <= k < v@.len() ==> (#[trigger] v@[k].spec_span()).0 <= v@[k].spec_span().1
                        <= s@.len()
                &&& forall|k: int|
                    0 <= k < v@.len() - 1 ==> (#[trigger] v@[k].spec_span()).1 == v@[k
                        + 1].spec_span().0
            },
            None => spec_snote(s@) is None,
        },
{
    let len = s.unicode_len();
    let i0 = skip_padding(s, 0, len);
    match headline_at(s, i0, len) {
        Some((h, cur)) => {
            let bs = blocks_at(s, cur, len);
            let mut body = bs.0;
            let tail = skip_padding(s, bs.1, len);
            if tail == len {
                let mut out: Vec<SNoteSection> = Vec::new();
                out.push(h);
                out.append(&mut body);
                proof {
                    assert(out@ =~= seq![h] + spec_blocks(s@, cur as int).0);
                    assert(spec_snote(s@) == Some(out@));
                    lemma_snote_sections_well_formed(s@, out@);
                }
                Some(out)
            } else {
                None
            }
        },
        None => {
            if len == 0 {
                Some(Vec::new())
            } else {
                None
            }
        },
    }
}

/// The sections of an arbitrary text, computed: the parsed note, or one
/// paragraph spanning the whole text.
pub fn parse_sections(s: &str) -> (r: Vec<SNoteSection>)
    ensures
        r@ == spec_sections(s@),
        forall|k: int|
            0 <= k < r@.len() ==> (#[trigger] r@[k].spec_span()).0 <= r@[k].spec_span().1
                <= s@.len(),
        forall|k: int|
            0 <= k < r@.len() - 1 ==> (#[trigger] r@[k].spec_span()).1 == r@[k + 1].spec_span().0,
{
    match snote(s) {
        Some(v) => v,
        None => {
            let len = s.unicode_len();
            let mut v: Vec<SNoteSection> = Vec::new();
            v.push(SNoteSection::Paragraph { start: 0, end: len });
            v
        },
    }
}

/// A note: its raw text together with the sections parsed from it.  The
/// sections always match the text.
#[derive(Debug)]
pub struct SNote {
    pub raw_content: String,
    pub sections: Vec<SNoteSection>,
}

impl SNote {
    /// The sections are the ones parsed from the raw text.
    pub open spec fn spec_wf(self) -> bool {
        self.sections@ == spec_sections(self.raw_content@)
    }

    /// An empty note.
    pub fn new() -> (r: SNote)
        ensures
            r.raw_content@.len() == 0,
            r.sections@.len() == 0,
            r.spec_wf(),
    {
        let raw = String::new();
        let sections = parse_sections(raw.as_str());
        SNote { raw_content: raw, sections }
    }

    /// Replace the note's text, reparsing its sections.
    pub fn set_raw(self, new_content: &str) -> (r: SNote)
        ensures
            r.raw_content@ == new_content@,
            r.spec_wf(),
    {
        SNote { raw_content: new_content.to_owned(), sections: self.sections }.update_sections()
    }

    /// Reparse the sections from the raw text.
    fn update_sections(self) -> (r: SNote)
        ensures
            r.raw_content@ == self.raw_content@,
            r.spec_wf(),
    {
        let sections = parse_sections(self.raw_content.as_str());
        SNote { raw_content: self.raw_content, sections }
    }

    /// Build a note from arbitrary text.  Never fails: text that is not a
    /// well-formed note becomes a single paragraph.
    pub fn from_str(s: &str) -> (r: Result<SNote, ()>)
        ensures
            r matches Ok(n) && n.raw_content@ == s@ && n.spec_wf(),
    {
        Ok(SNote { raw_content: s.to_owned(), sections: Vec::new() }.update_sections())
    }
}

} // verus!
