//! Media citations inside text bodies.
//!
//! A text body may cite media resources with the pattern
//! `{{ NAME.ext }}` where `ext` is one of `png`, `jpg`, `jpeg`, whitespace
//! just inside the braces is tolerated, and `NAME` holds no whitespace and
//! no braces.  The scanner walks the body left to right, captures each
//! citation's `NAME.ext`, and resumes after the closing braces; overlapping
//! or malformed citation text is skipped one character at a time.

use vstd::prelude::*;

verus! {

/// The whitespace characters: the Unicode white-space set.  They are
/// tolerated just inside the citation braces and are forbidden in a cited
/// name.
pub open spec fn is_space(c: char) -> bool {
    ||| c == '\t'
    ||| c == '\n'
    ||| c == '\u{b}'
    ||| c == '\u{c}'
    ||| c == '\r'
    ||| c == ' '
    ||| c == '\u{85}'
    ||| c == '\u{a0}'
    ||| c == '\u{1680}'
    ||| c == '\u{2000}'
    ||| c == '\u{2001}'
    ||| c == '\u{2002}'
    ||| c == '\u{2003}'
    ||| c == '\u{2004}'
    ||| c == '\u{2005}'
    ||| c == '\u{2006}'
    ||| c == '\u{2007}'
    ||| c == '\u{2008}'
    ||| c == '\u{2009}'
    ||| c == '\u{200a}'
    ||| c == '\u{2028}'
    ||| c == '\u{2029}'
    ||| c == '\u{202f}'
    ||| c == '\u{205f}'
    ||| c == '\u{3000}'
}

/// Characters allowed in a cited name: anything but whitespace and braces.
pub open spec fn is_name_char(c: char) -> bool {
    !is_space(c) && c != '{' && c != '}'
}

/// The first position at or after `i` whose character is not whitespace
/// (or the end of the text).
pub open spec fn skip_spaces(s: Seq<char>, i: int) -> int
    decreases s.len() - i
        when i <= s.len()
{
    if i >= s.len() {
        i
    } else if is_space(s[i]) {
        skip_spaces(s, i + 1)
    } else {
        i
    }
}

/// The first position at or after `i` whose character is not a name
/// character (or the end of the text).
pub open spec fn name_run_end(s: Seq<char>, i: int) -> int
    decreases s.len() - i
        when i <= s.len()
{
    if i >= s.len() {
        i
    } else if is_name_char(s[i]) {
        name_run_end(s, i + 1)
    } else {
        i
    }
}

proof fn lemma_skip_spaces(s: Seq<char>, i: int)
    requires
        0 <= i <= s.len(),
    ensures
        i <= skip_spaces(s, i) <= s.len(),
        forall|k: int| i <= k < skip_spaces(s, i) ==> is_space(s[k]),
        skip_spaces(s, i) < s.len() ==> !is_space(s[skip_spaces(s, i)]),
    decreases s.len() - i,
{
    if i < s.len() && is_space(s[i]) {
        lemma_skip_spaces(s, i + 1);
    }
}

proof fn lemma_name_run_end(s: Seq<char>, i: int)
    requires
        0 <= i <= s.len(),
    ensures
        i <= name_run_end(s, i) <= s.len(),
        forall|k: int| i <= k < name_run_end(s, i) ==> is_name_char(s[k]),
        name_run_end(s, i) < s.len() ==> !is_name_char(s[name_run_end(s, i)]),
    decreases s.len() - i,
{
    if i < s.len() && is_name_char(s[i]) {
        lemma_name_run_end(s, i + 1);
    }
}

/// `run` ends in `.png`.
pub open spec fn ends_with_png(run: Seq<char>) -> bool {
    run.len() >= 5 && run[run.len() - 4] == '.' && run[run.len() - 3] == 'p' && run[run.len()
        - 2] == 'n' && run[run.len() - 1] == 'g'
}

/// `run` ends in `.jpg`.
pub open spec fn ends_with_jpg(run: Seq<char>) -> bool {
    run.len() >= 5 && run[run.len() - 4] == '.' && run[run.len() - 3] == 'j' && run[run.len()
        - 2] == 'p' && run[run.len() - 1] == 'g'
}

/// `run` ends in `.jpeg`.
pub open spec fn ends_with_jpeg(run: Seq<char>) -> bool {
    run.len() >= 6 && run[run.len() - 5] == '.' && run[run.len() - 4] == 'j' && run[run.len()
        - 3] == 'p' && run[run.len() - 2] == 'e' && run[run.len() - 1] == 'g'
}

/// `run` is a well-formed citation capture: a non-empty name followed by a
/// dot and one of the recognised media extensions.  The length bounds keep
/// at least one name character before the dot.
pub open spec fn has_media_extension(run: Seq<char>) -> bool {
    ends_with_png(run) || ends_with_jpg(run) || ends_with_jpeg(run)
}

/// Where the capture of a citation opening at `i` would start: just after
/// the `{{`, with whitespace skipped.
pub open spec fn capture_start(s: Seq<char>, i: int) -> int {
    skip_spaces(s, i + 2)
}

/// Where that capture would end: the end of the run of name characters.
pub open spec fn capture_end(s: Seq<char>, i: int) -> int {
    name_run_end(s, capture_start(s, i))
}

/// Where the closing `}}` of a citation opening at `i` would have to stand.
pub open spec fn close_start(s: Seq<char>, i: int) -> int {
    skip_spaces(s, capture_end(s, i))
}

/// The position just after the closing `}}`.
pub open spec fn citation_end(s: Seq<char>, i: int) -> int {
    close_start(s, i) + 2
}

/// The captured `NAME.ext` of a citation opening at `i`.
pub open spec fn capture(s: Seq<char>, i: int) -> Seq<char> {
    s.subrange(capture_start(s, i), capture_end(s, i))
}

/// A citation opens at position `i`: two braces, tolerated whitespace, a
/// non-empty run of name characters ending in a media extension, tolerated
/// whitespace, two closing braces.
pub open spec fn citation_at(s: Seq<char>, i: int) -> bool {
    &&& 0 <= i
    &&& i + 2 <= s.len()
    &&& s[i] == '{'
    &&& s[i + 1] == '{'
    &&& capture_start(s, i) < capture_end(s, i)
    &&& has_media_extension(capture(s, i))
    &&& citation_end(s, i) <= s.len()
    &&& s[close_start(s, i)] == '}'
    &&& s[close_start(s, i) + 1] == '}'
}

proof fn lemma_citation_bounds(s: Seq<char>, i: int)
    requires
        0 <= i,
        i + 2 <= s.len(),
    ensures
        i + 2 <= capture_start(s, i) <= capture_end(s, i) <= close_start(s, i) <= s.len(),
{
    lemma_skip_spaces(s, i + 2);
    lemma_name_run_end(s, capture_start(s, i));
    lemma_skip_spaces(s, capture_end(s, i));
}

/// The captures of all citations at or after position `i`, in scan order.
pub open spec fn scan(s: Seq<char>, i: int) -> Seq<Seq<char>>
    decreases s.len() - i
        when 0 <= i <= s.len()
{
    if i >= s.len() {
        Seq::empty()
    } else if citation_at(s, i) && i < citation_end(s, i) <= s.len() {
        seq![capture(s, i)] + scan(s, citation_end(s, i))
    } else {
        scan(s, i + 1)
    }
}

/// All media citations of a text body, in left-to-right scan order,
/// duplicates preserved.
pub open spec fn media_citations(s: Seq<char>) -> Seq<Seq<char>> {
    scan(s, 0)
}

// ---------------------------------------------------------------------------
// Executable scanner.
// ---------------------------------------------------------------------------

fn is_space_char(c: char) -> (b: bool)
    ensures
        b == is_space(c),
{
    c == '\t' || c == '\n' || c == '\u{b}' || c == '\u{c}' || c == '\r' || c == ' ' || c
        == '\u{85}' || c == '\u{a0}' || c == '\u{1680}' || c == '\u{2000}' || c == '\u{2001}' || c
        == '\u{2002}' || c == '\u{2003}' || c == '\u{2004}' || c == '\u{2005}' || c == '\u{2006}'
        || c == '\u{2007}' || c == '\u{2008}' || c == '\u{2009}' || c == '\u{200a}' || c
        == '\u{2028}' || c == '\u{2029}' || c == '\u{202f}' || c == '\u{205f}' || c == '\u{3000}'
}

fn is_name_char_exec(c: char) -> (b: bool)
    ensures
        b == is_name_char(c),
{
    !is_space_char(c) && c != '{' && c != '}'
}

/// The first position at or after `from` holding a non-whitespace character.
fn first_non_space(text: &str, from: usize, len: usize) -> (j: usize)
    requires
        len == text@.len(),
        from <= len,
    ensures
        j == skip_spaces(text@, from as int),
        from <= j <= len,
{
    let mut i: usize = from;
    while i < len && is_space_char(text.get_char(i))
        invariant
            from <= i <= len,
            len == text@.len(),
            skip_spaces(text@, from as int) == skip_spaces(text@, i as int),
        decreases len - i,
    {
        i = i + 1;
    }
    proof {
        lemma_skip_spaces(text@, i as int);
    }
    i
}

/// The first position at or after `from` holding a character that cannot be
/// part of a cited name.
fn name_run_stop(text: &str, from: usize, len: usize) -> (j: usize)
    requires
        len == text@.len(),
        from <= len,
    ensures
        j == name_run_end(text@, from as int),
        from <= j <= len,
{
    let mut i: usize = from;
    while i < len && is_name_char_exec(text.get_char(i))
        invariant
            from <= i <= len,
            len == text@.len(),
            name_run_end(text@, from as int) == name_run_end(text@, i as int),
        decreases len - i,
    {
        i = i + 1;
    }
    proof {
        lemma_name_run_end(text@, i as int);
    }
    i
}

/// Whether a captured run ends in one of the recognised media extensions.
fn has_media_extension_exec(run: &str) -> (b: bool)
    ensures
        b == has_media_extension(run@),
{
    let n = run.unicode_len();
    if n < 5 {
        return false;
    }
    let dot4 = run.get_char(n - 4) == '.';
    if dot4 && run.get_char(n - 3) == 'p' && run.get_char(n - 2) == 'n' && run.get_char(n - 1)
        == 'g' {
        return true;
    }
    if dot4 && run.get_char(n - 3) == 'j' && run.get_char(n - 2) == 'p' && run.get_char(n - 1)
        == 'g' {
        return true;
    }
    if n >= 6 && run.get_char(n - 5) == '.' && run.get_char(n - 4) == 'j' && run.get_char(n - 3)
        == 'p' && run.get_char(n - 2) == 'e' && run.get_char(n - 1) == 'g' {
        return true;
    }
    false
}

/// Tries to read a citation opening at position `i`.  On success returns the
/// captured `NAME.ext` and the position just after the closing braces.
fn try_citation(text: &str, i: usize, len: usize) -> (r: Option<(String, usize)>)
    requires
        len == text@.len(),
        i < len,
    ensures
        match r {
            Some(hit) => {
                &&& citation_at(text@, i as int)
                &&& hit.0@ == capture(text@, i as int)
                &&& hit.1 == citation_end(text@, i as int)
                &&& i < hit.1 <= len
            },
            None => !citation_at(text@, i as int),
        },
{
    if text.get_char(i) != '{' {
        return None;
    }
    if i + 1 >= len || text.get_char(i + 1) != '{' {
        return None;
    }
    proof {
        lemma_citation_bounds(text@, i as int);
    }
    let cs = first_non_space(text, i + 2, len);
    let ce = name_run_stop(text, cs, len);
    if cs == ce {
        return None;
    }
    let run = text.substring_char(cs, ce);
    if !has_media_extension_exec(run) {
        return None;
    }
    let close = first_non_space(text, ce, len);
    if close >= len || text.get_char(close) != '}' {
        return None;
    }
    if close + 1 >= len || text.get_char(close + 1) != '}' {
        return None;
    }
    Some((String::from_str(run), close + 2))
}

/// Extracts every media citation of `text`, in left-to-right scan order,
/// duplicates preserved.
pub fn extract_citations(text: &str) -> (result: Vec<String>)
    ensures
        result.deep_view() == media_citations(text@),
{
    let len = text.unicode_len();
    let mut result: Vec<String> = Vec::new();
    let mut i: usize = 0;
    while i < len
        invariant
            i <= len,
            len == text@.len(),
            media_citations(text@) == result.deep_view() + scan(text@, i as int),
        decreases len - i,
    {
        let ghost prev = result.deep_view();
        match try_citation(text, i, len) {
            Some(hit) => {
                proof {
                    assert(scan(text@, i as int) == seq![capture(text@, i as int)] + scan(
                        text@,
                        citation_end(text@, i as int),
                    ));
                }
                let (cap, next) = hit;
                result.push(cap);
                proof {
                    assert(result.deep_view() =~= prev.push(cap@));
                    assert(media_citations(text@) =~= result.deep_view() + scan(
                        text@,
                        next as int,
                    ));
                }
                i = next;
            },
            None => {
                i = i + 1;
            },
        }
    }
    proof {
        assert(media_citations(text@) =~= result.deep_view());
    }
    result
}

// ---------------------------------------------------------------------------
// Laws of the scanner.
// ---------------------------------------------------------------------------

/// Citation text built around a capture: `{{ NAME.ext }}`, with one space of
/// tolerated whitespace on each side of the capture.
pub open spec fn render_citation(c: Seq<char>) -> Seq<char> {
    seq!['{', '{', ' '] + c + seq![' ', '}', '}']
}

/// A body composed solely of citations, one after the other.
pub open spec fn render_citations(caps: Seq<Seq<char>>) -> Seq<char>
    decreases caps.len(),
{
    if caps.len() == 0 {
        Seq::empty()
    } else {
        render_citation(caps[0]) + render_citations(caps.drop_first())
    }
}

/// A capture a citation can carry: name characters only, ending in a media
/// extension.
pub open spec fn valid_capture(c: Seq<char>) -> bool {
    &&& forall|k: int| 0 <= k < c.len() ==> is_name_char(#[trigger] c[k])
    &&& has_media_extension(c)
}

proof fn lemma_skip_spaces_value(s: Seq<char>, i: int, j: int)
    requires
        0 <= i <= j <= s.len(),
        forall|k: int| i <= k < j ==> is_space(#[trigger] s[k]),
        j == s.len() || !is_space(s[j]),
    ensures
        skip_spaces(s, i) == j,
    decreases j - i,
{
    if i < j {
        lemma_skip_spaces_value(s, i + 1, j);
    }
}

proof fn lemma_name_run_value(s: Seq<char>, i: int, j: int)
    requires
        0 <= i <= j <= s.len(),
        forall|k: int| i <= k < j ==> is_name_char(#[trigger] s[k]),
        j == s.len() || !is_name_char(s[j]),
    ensures
        name_run_end(s, i) == j,
    decreases j - i,
{
    if i < j {
        lemma_name_run_value(s, i + 1, j);
    }
}

proof fn lemma_skip_spaces_shift(u: Seq<char>, v: Seq<char>, i: int)
    requires
        0 <= i <= v.len(),
    ensures
        skip_spaces(u + v, u.len() + i) == u.len() + skip_spaces(v, i),
    decreases v.len() - i,
{
    if i < v.len() {
        assert((u + v)[u.len() + i] == v[i]);
        if is_space(v[i]) {
            lemma_skip_spaces_shift(u, v, i + 1);
        }
    }
}

proof fn lemma_name_run_shift(u: Seq<char>, v: Seq<char>, i: int)
    requires
        0 <= i <= v.len(),
    ensures
        name_run_end(u + v, u.len() + i) == u.len() + name_run_end(v, i),
    decreases v.len() - i,
{
    if i < v.len() {
        assert((u + v)[u.len() + i] == v[i]);
        if is_name_char(v[i]) {
            lemma_name_run_shift(u, v, i + 1);
        }
    }
}

/// Whether a citation opens at a position of the suffix `v` does not depend
/// on the text `u` standing before it, and neither do its capture and end.
proof fn lemma_citation_shift(u: Seq<char>, v: Seq<char>, i: int)
    requires
        0 <= i <= v.len(),
    ensures
        citation_at(u + v, u.len() + i) == citation_at(v, i),
        citation_at(v, i) ==> capture(u + v, u.len() + i) == capture(v, i),
        citation_at(v, i) ==> citation_end(u + v, u.len() + i) == u.len() + citation_end(v, i),
{
    let s = u + v;
    if i + 2 <= v.len() {
        assert(s[u.len() + i] == v[i]);
        assert(s[u.len() + i + 1] == v[i + 1]);
        lemma_skip_spaces_shift(u, v, i + 2);
        lemma_skip_spaces(v, i + 2);
        lemma_name_run_shift(u, v, capture_start(v, i));
        lemma_name_run_end(v, capture_start(v, i));
        lemma_skip_spaces_shift(u, v, capture_end(v, i));
        lemma_skip_spaces(v, capture_end(v, i));
        assert(capture(s, u.len() + i) =~= v.subrange(capture_start(v, i), capture_end(v, i)));
        if close_start(v, i) + 2 <= v.len() {
            assert(s[u.len() + close_start(v, i)] == v[close_start(v, i)]);
            if close_start(v, i) + 1 < v.len() {
                assert(s[u.len() + close_start(v, i) + 1] == v[close_start(v, i) + 1]);
            }
        }
    }
}

/// The scan of a suffix does not depend on the text standing before it.
proof fn lemma_scan_shift(u: Seq<char>, v: Seq<char>, i: int)
    requires
        0 <= i <= v.len(),
    ensures
        scan(u + v, u.len() + i) == scan(v, i),
    decreases v.len() - i,
{
    lemma_citation_shift(u, v, i);
    if i >= v.len() {
    } else if citation_at(v, i) {
        lemma_citation_bounds(v, i);
        lemma_scan_shift(u, v, citation_end(v, i));
        assert(scan(u + v, u.len() + i) =~= scan(v, i));
    } else {
        lemma_scan_shift(u, v, i + 1);
    }
}

/// The anatomy of one rendered citation standing at the head of a text:
/// it is recognised, it captures exactly its capture, and the scan resumes
/// right after it.
proof fn lemma_render_citation_head(c: Seq<char>, rest: Seq<char>)
    requires
        valid_capture(c),
    ensures
        citation_at(render_citation(c) + rest, 0),
        capture(render_citation(c) + rest, 0) == c,
        citation_end(render_citation(c) + rest, 0) == render_citation(c).len(),
{
    let u = render_citation(c);
    let s = u + rest;
    assert(c.len() >= 5);
    assert(u.len() == c.len() + 6);
    assert(s[0] == '{');
    assert(s[1] == '{');
    assert(s[2] == ' ');
    assert(forall|k: int| 0 <= k < c.len() ==> s[3 + k] == #[trigger] c[k]);
    assert(s[3 + c.len() as int] == ' ');
    assert(s[4 + c.len() as int] == '}');
    assert(s[5 + c.len() as int] == '}');
    lemma_skip_spaces_value(s, 2, 3);
    lemma_name_run_value(s, 3, 3 + c.len() as int);
    assert(capture_start(s, 0) == 3);
    assert(capture_end(s, 0) == 3 + c.len());
    assert(capture(s, 0) =~= c);
    lemma_skip_spaces_value(s, 3 + c.len() as int, 4 + c.len() as int);
    assert(close_start(s, 0) == 4 + c.len());
    assert(citation_at(s, 0));
}

/// Scanning a body composed solely of citations yields exactly those
/// citations' captures, in order, duplicates preserved.
pub proof fn lemma_citations_round_trip(caps: Seq<Seq<char>>)
    requires
        forall|k: int| 0 <= k < caps.len() ==> valid_capture(#[trigger] caps[k]),
    ensures
        media_citations(render_citations(caps)) == caps,
    decreases caps.len(),
{
    if caps.len() == 0 {
        assert(media_citations(render_citations(caps)) =~= caps);
    } else {
        let c = caps[0];
        let rest = caps.drop_first();
        let u = render_citation(c);
        let v = render_citations(rest);
        let s = u + v;
        lemma_render_citation_head(c, v);
        lemma_citation_bounds(s, 0);
        assert(scan(s, 0) == seq![c] + scan(s, u.len() as int));
        lemma_scan_shift(u, v, 0);
        lemma_citations_round_trip(rest);
        assert(media_citations(render_citations(caps)) =~= caps);
    }
}

/// Whitespace padding only.
pub open spec fn all_spaces(pad: Seq<char>) -> bool {
    forall|k: int| 0 <= k < pad.len() ==> is_space(#[trigger] pad[k])
}

/// A body of citations with whitespace around them: padding, a citation,
/// more padding, the next citation, and so on, with closing padding.  The
/// paddings are one more than the citations.
pub open spec fn render_padded(caps: Seq<Seq<char>>, pads: Seq<Seq<char>>) -> Seq<char>
    decreases caps.len(),
{
    if caps.len() == 0 {
        if pads.len() == 0 {
            Seq::empty()
        } else {
            pads[0]
        }
    } else {
        pads[0] + render_citation(caps[0]) + render_padded(caps.drop_first(), pads.drop_first())
    }
}

/// Scanning a body composed solely of citations and whitespace yields one
/// capture per citation, in order, duplicates preserved.
pub proof fn lemma_citations_and_whitespace_round_trip(caps: Seq<Seq<char>>, pads: Seq<Seq<char>>)
    requires
        pads.len() == caps.len() + 1,
        forall|k: int| 0 <= k < caps.len() ==> valid_capture(#[trigger] caps[k]),
        forall|k: int| 0 <= k < pads.len() ==> all_spaces(#[trigger] pads[k]),
    ensures
        media_citations(render_padded(caps, pads)) == caps,
    decreases caps.len(),
{
    if caps.len() == 0 {
        let pad = pads[0];
        assert(pad + Seq::<char>::empty() =~= pad);
        lemma_leading_whitespace_ignored(pad, Seq::empty());
        assert(media_citations(render_padded(caps, pads)) =~= caps);
    } else {
        let pad = pads[0];
        let c = caps[0];
        let unit = render_citation(c);
        let rest = render_padded(caps.drop_first(), pads.drop_first());
        let tail = unit + rest;
        assert(render_padded(caps, pads) =~= pad + tail);
        lemma_leading_whitespace_ignored(pad, tail);
        lemma_render_citation_head(c, rest);
        lemma_citation_bounds(tail, 0);
        assert(scan(tail, 0) == seq![c] + scan(tail, unit.len() as int));
        lemma_scan_shift(unit, rest, 0);
        lemma_citations_and_whitespace_round_trip(caps.drop_first(), pads.drop_first());
        assert(media_citations(render_padded(caps, pads)) =~= caps);
    }
}

proof fn lemma_spaces_scan(pad: Seq<char>, rest: Seq<char>, i: int)
    requires
        0 <= i <= pad.len(),
        forall|k: int| 0 <= k < pad.len() ==> is_space(#[trigger] pad[k]),
    ensures
        scan(pad + rest, i) == scan(pad + rest, pad.len() as int),
    decreases pad.len() - i,
{
    if i < pad.len() {
        assert((pad + rest)[i] == pad[i]);
        assert(!citation_at(pad + rest, i));
        lemma_spaces_scan(pad, rest, i + 1);
    }
}

/// Whitespace standing before a body does not change its citations: the
/// scanner only recognises citations, wherever they stand.
pub proof fn lemma_leading_whitespace_ignored(pad: Seq<char>, rest: Seq<char>)
    requires
        forall|k: int| 0 <= k < pad.len() ==> is_space(#[trigger] pad[k]),
    ensures
        media_citations(pad + rest) == media_citations(rest),
{
    lemma_spaces_scan(pad, rest, 0);
    lemma_scan_shift(pad, rest, 0);
}

proof fn lemma_scan_no_citation(s: Seq<char>, i: int)
    requires
        0 <= i <= s.len(),
        forall|j: int| i <= j < s.len() ==> !citation_at(s, j),
    ensures
        scan(s, i) == Seq::<Seq<char>>::empty(),
    decreases s.len() - i,
{
    if i < s.len() {
        lemma_scan_no_citation(s, i + 1);
    }
}

/// A lone citation whose run does not end in a recognised media extension
/// is ignored: scanning its text yields nothing.
pub proof fn lemma_unrecognised_extension_ignored(c: Seq<char>)
    requires
        forall|k: int| 0 <= k < c.len() ==> is_name_char(#[trigger] c[k]),
        !has_media_extension(c),
    ensures
        media_citations(render_citation(c)) == Seq::<Seq<char>>::empty(),
{
    let s = render_citation(c);
    assert(s.len() == c.len() + 6);
    assert(s[0] == '{');
    assert(s[1] == '{');
    assert(s[2] == ' ');
    assert(forall|k: int| 0 <= k < c.len() ==> s[3 + k] == #[trigger] c[k]);
    assert(s[3 + c.len() as int] == ' ');
    assert(s[4 + c.len() as int] == '}');
    assert(s[5 + c.len() as int] == '}');
    assert forall|j: int| 0 <= j < s.len() implies !citation_at(s, j) by {
        if j == 0 {
            if c.len() == 0 {
                lemma_skip_spaces_value(s, 2, 4);
                lemma_name_run_value(s, 4, 4);
                assert(capture_start(s, 0) == capture_end(s, 0));
            } else {
                lemma_skip_spaces_value(s, 2, 3);
                lemma_name_run_value(s, 3, 3 + c.len() as int);
                assert(capture(s, 0) =~= c);
            }
        } else if j == 1 {
            assert(s[2] != '{');
        } else {
            assert(s[j] != '{');
        }
    }
    lemma_scan_no_citation(s, 0);
}

} // verus!
