//! The prose rules, checked on markdown text.
//!
//! Three of them, all mechanical: no em dash or en dash, no horizontal rule after the first
//! line, and no sentence wrapped onto the next line. Fenced code is exempt from all three.
//! Reading the files is the caller's business; this is what is decided about their text.

use vstd::prelude::*;

use crate::text::{
    chars_contains, chars_of, chars_starts_with, char_is_digit, is_digit, split, split_chars,
    starts_with, string_of, trim, trim_chars, trim_end, trim_start, trim_start_chars,
};

verus! {

/// One thing wrong with one line of one file.
#[derive(Debug, Clone, PartialEq, Eq)]
pub struct Finding {
    /// The file, as the caller names it.
    pub path: String,
    /// The line, counted from one.
    pub line: usize,
    /// What is wrong with it.
    pub message: &'static str,
}

/// A [`Finding`] with its text as sequences of characters.
pub ghost struct FindingView {
    pub path: Seq<char>,
    pub line: int,
    pub message: Seq<char>,
}

impl View for Finding {
    type V = FindingView;

    open spec fn view(&self) -> FindingView {
        FindingView { path: self.path@, line: self.line as int, message: self.message@ }
    }
}

/// The views of a list of findings.
pub open spec fn findings_view(fs: Seq<Finding>) -> Seq<FindingView> {
    fs.map_values(|f: Finding| f@)
}

/// The lines of a text the way `str::lines` gives them: split at line feeds, a carriage return
/// just before a line feed dropped with it, and no empty line after a final line feed.
pub open spec fn text_lines(text: Seq<char>) -> Seq<Seq<char>> {
    let parts = split(text, '\n');
    let kept = if parts.last().len() == 0 {
        parts.drop_last()
    } else {
        parts
    };
    Seq::new(
        kept.len(),
        |i: int|
            if i < parts.len() - 1 && kept[i].len() > 0 && kept[i].last() == '\r' {
                kept[i].drop_last()
            } else {
                kept[i]
            },
    )
}

/// Whether a line opens or closes a fenced code block.
pub open spec fn is_fence(line: Seq<char>) -> bool {
    starts_with(trim_start(line), "```"@) || starts_with(trim_start(line), "~~~"@)
}

/// Whether the lines before line `i` (counted from zero) leave a fenced block open.
pub open spec fn in_fence(lines: Seq<Seq<char>>, i: int) -> bool
    decreases i,
{
    if i <= 0 {
        false
    } else if is_fence(lines[i - 1]) {
        !in_fence(lines, i - 1)
    } else {
        in_fence(lines, i - 1)
    }
}

/// Whether a line is `---`, `***` or `___` on its own: three or more of one of those, with
/// nothing else but trailing whitespace.
pub open spec fn horizontal_rule(line: Seq<char>) -> bool {
    let t = trim_end(line);
    &&& t.len() >= 3
    &&& {
        ||| forall|j: int| 0 <= j < t.len() ==> #[trigger] t[j] == '-'
        ||| forall|j: int| 0 <= j < t.len() ==> #[trigger] t[j] == '*'
        ||| forall|j: int| 0 <= j < t.len() ==> #[trigger] t[j] == '_'
    }
}

/// How many ASCII digits a sequence starts with.
pub open spec fn leading_digits(s: Seq<char>) -> nat
    decreases s.len(),
{
    if s.len() > 0 && is_digit(s[0]) {
        1 + leading_digits(s.drop_first())
    } else {
        0
    }
}

/// Whether a line is markdown structure rather than a sentence: indented code, or after its
/// leading whitespace a table row, a heading, a block quote, a list item, a comment, a link
/// definition, a fence, or digits followed by `. ` or `) `.
pub open spec fn structural(line: Seq<char>) -> bool {
    let t = trim_start(line);
    let d = leading_digits(t) as int;
    ||| starts_with(line, "    "@)
    ||| starts_with(line, "\t"@)
    ||| starts_with(t, "|"@)
    ||| starts_with(t, "#"@)
    ||| starts_with(t, ">"@)
    ||| starts_with(t, "- "@)
    ||| starts_with(t, "* "@)
    ||| starts_with(t, "+ "@)
    ||| starts_with(t, "<!--"@)
    ||| starts_with(t, "["@)
    ||| starts_with(t, "```"@)
    ||| starts_with(t, "~~~"@)
    ||| (d > 0 && (starts_with(t.skip(d), ". "@) || starts_with(t.skip(d), ") "@)))
}

/// The message for an em dash.
pub open spec fn em_dash_message() -> Seq<char> {
    "em dash"@
}

/// The message for an en dash.
pub open spec fn en_dash_message() -> Seq<char> {
    "en dash"@
}

/// The message for a horizontal rule.
pub open spec fn rule_message() -> Seq<char> {
    "horizontal rule, which is a page break"@
}

/// The message for a wrapped paragraph.
pub open spec fn wrap_message() -> Seq<char> {
    "a sentence continues onto a new line, so the paragraph is wrapped"@
}

/// A finding, as a view.
pub open spec fn finding(path: Seq<char>, line: int, message: Seq<char>) -> FindingView {
    FindingView { path, line, message }
}

/// One finding if the condition holds, and none otherwise.
pub open spec fn finding_if(cond: bool, path: Seq<char>, line: int, message: Seq<char>) -> Seq<
    FindingView,
> {
    if cond {
        seq![finding(path, line, message)]
    } else {
        Seq::empty()
    }
}

/// Whether line `i` and the line after it are both sentences, so that the paragraph is
/// wrapped: neither is blank, neither is structure, and the next does not open a fence.
pub open spec fn wraps(lines: Seq<Seq<char>>, i: int) -> bool {
    &&& i + 1 < lines.len()
    &&& trim(lines[i]).len() > 0
    &&& trim(lines[i + 1]).len() > 0
    &&& !structural(lines[i + 1])
    &&& !structural(lines[i])
    &&& !starts_with(trim_start(lines[i + 1]), "```"@)
}

/// What line `i` (counted from zero) is found to break, reported at its number counted from
/// one, the wrapped line at the number of the line that continues. A fence line and a line
/// inside a fence break nothing.
pub open spec fn line_findings(path: Seq<char>, lines: Seq<Seq<char>>, i: int) -> Seq<FindingView> {
    let line = lines[i];
    if is_fence(line) || in_fence(lines, i) {
        Seq::empty()
    } else {
        finding_if(line.contains('\u{2014}'), path, i + 1, em_dash_message()) + finding_if(
            line.contains('\u{2013}'),
            path,
            i + 1,
            en_dash_message(),
        ) + finding_if(i > 0 && horizontal_rule(trim_start(line)), path, i + 1, rule_message())
            + finding_if(wraps(lines, i), path, i + 2, wrap_message())
    }
}

/// Everything the first `n` lines are found to break, in line order.
pub open spec fn findings_upto(path: Seq<char>, lines: Seq<Seq<char>>, n: int) -> Seq<FindingView>
    decreases n,
{
    if n <= 0 {
        Seq::empty()
    } else {
        findings_upto(path, lines, n - 1) + line_findings(path, lines, n - 1)
    }
}

/// Everything a file's text is found to break.
pub open spec fn text_findings(path: Seq<char>, text: Seq<char>) -> Seq<FindingView> {
    findings_upto(path, text_lines(text), text_lines(text).len() as int)
}

/// A sequence that starts with `d` digits and then something else starts with `d` digits.
proof fn lemma_leading_digits(s: Seq<char>, d: int)
    requires
        0 <= d <= s.len(),
        forall|j: int| 0 <= j < d ==> is_digit(#[trigger] s[j]),
        d == s.len() || !is_digit(s[d]),
    ensures
        leading_digits(s) == d,
    decreases d,
{
    if d > 0 {
        lemma_leading_digits(s.drop_first(), d - 1);
    }
}

/// The lines of a text, split the way `str::lines` splits them.
fn lines_of(text: &Vec<char>) -> (r: Vec<Vec<char>>)
    ensures
        r@.len() == text_lines(text@).len(),
        forall|i: int| 0 <= i < r@.len() ==> #[trigger] r@[i]@ == text_lines(text@)[i],
{
    let parts = split_chars(text, '\n');
    proof {
        crate::text::lemma_split_nonempty(text@, '\n');
    }
    let ghost sparts = split(text@, '\n');
    let total = parts.len();
    let kept = if parts[total - 1].len() == 0 {
        total - 1
    } else {
        total
    };
    let mut r: Vec<Vec<char>> = Vec::new();
    let mut i: usize = 0;
    while i < kept
        invariant
            total == parts@.len(),
            total == sparts.len(),
            sparts == split(text@, '\n'),
            total >= 1,
            kept <= total,
            kept == text_lines(text@).len(),
            forall|k: int| 0 <= k < total ==> #[trigger] parts@[k]@ == sparts[k],
            i <= kept,
            r@.len() == i,
            forall|k: int| 0 <= k < i ==> #[trigger] r@[k]@ == text_lines(text@)[k],
        decreases kept - i,
    {
        let part = &parts[i];
        let n = part.len();
        let line = if i + 1 < total && n > 0 && part[n - 1] == '\r' {
            crate::text::slice_chars(part, 0, n - 1)
        } else {
            crate::text::slice_chars(part, 0, n)
        };
        proof {
            assert(part@ == sparts[i as int]);
            let kept_parts = if sparts.last().len() == 0 {
                sparts.drop_last()
            } else {
                sparts
            };
            assert(kept_parts[i as int] == sparts[i as int]);
            if i + 1 < total && n > 0 && part@[n - 1] == '\r' {
                assert(line@ =~= part@.drop_last());
            } else {
                assert(line@ =~= part@);
            }
        }
        r.push(line);
        i = i + 1;
    }
    r
}

/// Whether a line is a horizontal rule.
fn horizontal_rule_chars(line: &Vec<char>) -> (r: bool)
    ensures
        r == horizontal_rule(line@),
{
    let t = crate::text::trim_end_chars(line);
    if t.len() < 3 {
        return false;
    }
    let c = t[0];
    proof {
        assert(t@ == trim_end(line@));
    }
    if c != '-' && c != '*' && c != '_' {
        assert(trim_end(line@)[0] == c);
        return false;
    }
    let mut i: usize = 1;
    while i < t.len()
        invariant
            1 <= i <= t@.len(),
            t@.len() >= 3,
            t@ == trim_end(line@),
            t@[0] == c,
            c == '-' || c == '*' || c == '_',
            forall|j: int| 0 <= j < i ==> #[trigger] t@[j] == c,
        decreases t@.len() - i,
    {
        if t[i] != c {
            assert(trim_end(line@)[i as int] != trim_end(line@)[0]);
            return false;
        }
        i = i + 1;
    }
    true
}

/// Whether a line is a horizontal rule: `---`, `***` or `___` on its own.
pub fn is_horizontal_rule(line: &str) -> (r: bool)
    ensures
        r == horizontal_rule(line@),
{
    horizontal_rule_chars(&chars_of(line))
}

/// Whether a line is markdown structure rather than a sentence.
fn structural_chars(line: &Vec<char>) -> (r: bool)
    ensures
        r == structural(line@),
{
    if chars_starts_with(line, "    ") || chars_starts_with(line, "\t") {
        return true;
    }
    let t = trim_start_chars(line);
    if chars_starts_with(&t, "|") || chars_starts_with(&t, "#") || chars_starts_with(&t, ">")
        || chars_starts_with(&t, "- ") || chars_starts_with(&t, "* ") || chars_starts_with(
        &t,
        "+ ",
    ) || chars_starts_with(&t, "<!--") || chars_starts_with(&t, "[") || chars_starts_with(
        &t,
        "```",
    ) || chars_starts_with(&t, "~~~") {
        return true;
    }
    let n = t.len();
    let mut d: usize = 0;
    while d < n && char_is_digit(t[d])
        invariant
            n == t@.len(),
            d <= n,
            forall|j: int| 0 <= j < d ==> is_digit(#[trigger] t@[j]),
        decreases n - d,
    {
        d = d + 1;
    }
    proof {
        lemma_leading_digits(t@, d as int);
    }
    if d == 0 {
        return false;
    }
    let rest = crate::text::slice_chars(&t, d, n);
    proof {
        assert(rest@ =~= t@.skip(d as int));
    }
    chars_starts_with(&rest, ". ") || chars_starts_with(&rest, ") ")
}

/// Whether a line is markdown structure rather than a sentence: table rows, list items,
/// headings, block quotes, indented code and link definitions all legitimately sit next to
/// each other on consecutive lines, and none of them is a wrapped sentence.
pub fn is_structural(line: &str) -> (r: bool)
    ensures
        r == structural(line@),
{
    structural_chars(&chars_of(line))
}

/// Whether a line opens or closes a fenced block.
fn fence_chars(line: &Vec<char>) -> (r: bool)
    ensures
        r == is_fence(line@),
{
    let t = trim_start_chars(line);
    chars_starts_with(&t, "```") || chars_starts_with(&t, "~~~")
}

/// Whether a line is empty once trimmed.
fn blank_chars(line: &Vec<char>) -> (r: bool)
    ensures
        r == (trim(line@).len() == 0),
{
    trim_chars(line).len() == 0
}

/// Add a finding at a line.
fn report(
    findings: &mut Vec<Finding>,
    path: &Vec<char>,
    line: usize,
    message: &'static str,
)
    ensures
        findings_view(final(findings)@) == findings_view(old(findings)@).push(
            finding(path@, line as int, message@),
        ),
{
    let f = Finding { path: string_of(path), line, message };
    findings.push(f);
    assert(findings_view(findings@) =~= findings_view(old(findings)@).push(f@));
}

/// The lines as sequences of characters.
spec fn lines_view(lines: Seq<Vec<char>>) -> Seq<Seq<char>> {
    lines.map_values(|l: Vec<char>| l@)
}

/// Add what line `index` breaks, given whether a fence is open before it.
fn check_line(
    path: &Vec<char>,
    lines: &Vec<Vec<char>>,
    index: usize,
    fenced: bool,
    findings: &mut Vec<Finding>,
)
    requires
        index < lines@.len(),
        fenced == in_fence(lines_view(lines@), index as int),
    ensures
        findings_view(final(findings)@) == findings_view(old(findings)@) + line_findings(
            path@,
            lines_view(lines@),
            index as int,
        ),
{
    let ghost ls = lines_view(lines@);
    let n = lines.len();
    let line = &lines[index];
    let number = index + 1;
    assert(line@ == ls[index as int]);
    if !fence_chars(line) && !fenced {
        if chars_contains(line, '\u{2014}') {
            report(findings, path, number, "em dash");
        }
        if chars_contains(line, '\u{2013}') {
            report(findings, path, number, "en dash");
        }
        if number > 1 && horizontal_rule_chars(&trim_start_chars(line)) {
            report(findings, path, number, "horizontal rule, which is a page break");
        }
        if index + 1 < n && !blank_chars(line) {
            let next = &lines[index + 1];
            assert(next@ == ls[index + 1]);
            if !blank_chars(next) && !structural_chars(next) && !structural_chars(line)
                && !chars_starts_with(&trim_start_chars(next), "```") {
                report(
                    findings,
                    path,
                    number + 1,
                    "a sentence continues onto a new line, so the paragraph is wrapped",
                );
            }
        }
    }
    proof {
        reveal_strlit("em dash");
        reveal_strlit("en dash");
        reveal_strlit("horizontal rule, which is a page break");
        reveal_strlit("a sentence continues onto a new line, so the paragraph is wrapped");
        assert(findings_view(findings@) =~= findings_view(old(findings)@) + line_findings(
            path@,
            ls,
            index as int,
        ));
    }
}

/// Apply the three rules to one file and add every finding, in line order, rather than
/// stopping at the first: a checker that stops at the first problem turns a five minute fix
/// into five round trips.
pub fn check(path: &str, text: &str, findings: &mut Vec<Finding>)
    ensures
        findings_view(final(findings)@) == findings_view(old(findings)@) + text_findings(
            path@,
            text@,
        ),
{
    let path_chars = chars_of(path);
    let text_chars = chars_of(text);
    let lines = lines_of(&text_chars);
    let ghost ls = text_lines(text@);
    assert(lines_view(lines@) =~= ls);
    let n = lines.len();
    let ghost start = findings_view(findings@);
    let mut fenced = false;
    let mut index: usize = 0;
    while index < n
        invariant
            n == lines@.len(),
            lines_view(lines@) == ls,
            ls == text_lines(text@),
            path_chars@ == path@,
            index <= n,
            fenced == in_fence(ls, index as int),
            findings_view(findings@) == start + findings_upto(path@, ls, index as int),
        decreases n - index,
    {
        check_line(&path_chars, &lines, index, fenced, findings);
        proof {
            assert(lines@[index as int]@ == ls[index as int]);
        }
        if fence_chars(&lines[index]) {
            fenced = !fenced;
        }
        assert(findings_view(findings@) =~= start + findings_upto(path@, ls, index + 1));
        index = index + 1;
    }
}

/// Whether line `m` (counted from one) continues a sentence from the line before it: both are
/// there, neither is blank, and neither is markdown structure, so the continuing line is no
/// list item, heading, block quote, table row or numbered item.
pub open spec fn continues_a_sentence(lines: Seq<Seq<char>>, m: int) -> bool {
    let line = lines[m - 1];
    let before = lines[m - 2];
    let t = trim_start(line);
    &&& 2 <= m <= lines.len()
    &&& trim(before).len() > 0
    &&& trim(line).len() > 0
    &&& !structural(before)
    &&& !structural(line)
    &&& !starts_with(t, "- "@)
    &&& !starts_with(t, "* "@)
    &&& !starts_with(t, "+ "@)
    &&& !starts_with(t, "#"@)
    &&& !starts_with(t, ">"@)
    &&& !starts_with(t, "|"@)
    &&& !(leading_digits(t) > 0 && starts_with(t.skip(leading_digits(t) as int), ". "@))
}

/// The findings about one line report a wrapped paragraph only where the next line continues
/// a sentence.
proof fn lemma_line_wraps(path: Seq<char>, lines: Seq<Seq<char>>, i: int)
    requires
        0 <= i < lines.len(),
    ensures
        forall|j: int|
            0 <= j < line_findings(path, lines, i).len() && (#[trigger] line_findings(
                path,
                lines,
                i,
            )[j]).message == wrap_message() ==> continues_a_sentence(
                lines,
                line_findings(path, lines, i)[j].line,
            ),
{
    reveal_strlit("em dash");
    reveal_strlit("en dash");
    reveal_strlit("horizontal rule, which is a page break");
    reveal_strlit("a sentence continues onto a new line, so the paragraph is wrapped");
    let line = lines[i];
    if !(is_fence(line) || in_fence(lines, i)) {
        let a = finding_if(line.contains('\u{2014}'), path, i + 1, em_dash_message());
        let b = finding_if(line.contains('\u{2013}'), path, i + 1, en_dash_message());
        let c = finding_if(
            i > 0 && horizontal_rule(trim_start(line)),
            path,
            i + 1,
            rule_message(),
        );
        let d = finding_if(wraps(lines, i), path, i + 2, wrap_message());
        let lf = line_findings(path, lines, i);
        assert(lf == a + b + c + d);
        assert(em_dash_message().len() != wrap_message().len());
        assert(en_dash_message().len() != wrap_message().len());
        assert(rule_message() != wrap_message());
        assert forall|j: int|
            0 <= j < lf.len() && (#[trigger] lf[j]).message == wrap_message() implies continues_a_sentence(
            lines,
            lf[j].line,
        ) by {
            if j < a.len() {
                assert(lf[j] == a[j]);
            } else if j < a.len() + b.len() {
                assert(lf[j] == b[j - a.len()]);
            } else if j < a.len() + b.len() + c.len() {
                assert(lf[j] == c[j - a.len() - b.len()]);
            } else {
                assert(lf[j] == d[j - a.len() - b.len() - c.len()]);
                assert(wraps(lines, i));
                assert(lf[j].line == i + 2);
            }
        }
    }
}

/// The findings about the first `n` lines report a wrapped paragraph only where a line
/// continues a sentence.
proof fn lemma_wraps_upto(path: Seq<char>, lines: Seq<Seq<char>>, n: int)
    requires
        0 <= n <= lines.len(),
    ensures
        forall|k: int|
            0 <= k < findings_upto(path, lines, n).len() && (#[trigger] findings_upto(
                path,
                lines,
                n,
            )[k]).message == wrap_message() ==> continues_a_sentence(
                lines,
                findings_upto(path, lines, n)[k].line,
            ),
    decreases n,
{
    if n > 0 {
        lemma_wraps_upto(path, lines, n - 1);
        lemma_line_wraps(path, lines, n - 1);
        let pre = findings_upto(path, lines, n - 1);
        let lf = line_findings(path, lines, n - 1);
        let all = findings_upto(path, lines, n);
        assert(all == pre + lf);
        assert forall|k: int|
            0 <= k < all.len() && (#[trigger] all[k]).message == wrap_message() implies continues_a_sentence(
            lines,
            all[k].line,
        ) by {
            if k < pre.len() {
                assert(all[k] == pre[k]);
            } else {
                assert(all[k] == lf[k - pre.len()]);
            }
        }
    }
}

/// A wrapped paragraph is reported only at a line that continues a sentence from the line
/// before it: never at a blank line, and never at markdown structure such as a list item, a
/// heading, a quote or a table row, on either side.
pub proof fn a_wrap_is_reported_only_between_sentences(path: Seq<char>, text: Seq<char>)
    ensures
        forall|k: int|
            0 <= k < text_findings(path, text).len() && (#[trigger] text_findings(path, text)[k]).message
                == wrap_message() ==> continues_a_sentence(
                text_lines(text),
                text_findings(path, text)[k].line,
            ),
{
    lemma_wraps_upto(path, text_lines(text), text_lines(text).len() as int);
}

} // verus!
