//! Character-level text utilities: whitespace classification, blankness, and
//! splitting the version-control file listing into its significant lines.

use vstd::prelude::*;
use vstd::string::StrSliceExecFns;

verus! {

/// The Unicode `White_Space` characters, as `str::trim` removes them.
pub open spec fn is_space(c: char) -> bool {
    ||| c == ' '
    ||| c == '\t'
    ||| c == '\n'
    ||| c == '\u{b}'
    ||| c == '\u{c}'
    ||| c == '\r'
    ||| c == '\u{85}'
    ||| c == '\u{a0}'
    ||| c == '\u{1680}'
    ||| ('\u{2000}' <= c && c <= '\u{200a}')
    ||| c == '\u{2028}'
    ||| c == '\u{2029}'
    ||| c == '\u{202f}'
    ||| c == '\u{205f}'
    ||| c == '\u{3000}'
}

pub fn is_space_char(c: char) -> (r: bool)
    ensures
        r == is_space(c),
{
    c == ' ' || c == '\t' || c == '\n' || c == '\u{b}' || c == '\u{c}' || c == '\r'
        || c == '\u{85}' || c == '\u{a0}' || c == '\u{1680}'
        || ('\u{2000}' <= c && c <= '\u{200a}') || c == '\u{2028}' || c == '\u{2029}'
        || c == '\u{202f}' || c == '\u{205f}' || c == '\u{3000}'
}

/// A sequence of characters is blank when every character is whitespace;
/// in particular the empty sequence is blank.
pub open spec fn is_blank(s: Seq<char>) -> bool {
    forall|i: int| 0 <= i < s.len() ==> is_space(#[trigger] s[i])
}

/// Whether `s` trims to the empty string.
pub fn is_blank_str(s: &str) -> (r: bool)
    ensures
        r == is_blank(s@),
{
    let n = s.unicode_len();
    let mut i: usize = 0;
    while i < n
        invariant
            i <= n,
            n == s@.len(),
            forall|j: int| 0 <= j < i ==> is_space(#[trigger] s@[j]),
        decreases n - i,
    {
        if !is_space_char(s.get_char(i)) {
            return false;
        }
        i += 1;
    }
    true
}

/// A line with a trailing carriage return loses it, as `str::lines` drops it.
pub open spec fn strip_cr(line: Seq<char>) -> Seq<char> {
    if line.len() > 0 && line.last() == '\r' {
        line.drop_last()
    } else {
        line
    }
}

/// A finished line joins the listing only when it is not blank after the
/// carriage-return strip; the path is kept otherwise untrimmed.
pub open spec fn emit_line(lines: Seq<Seq<char>>, cur: Seq<char>) -> Seq<Seq<char>> {
    let stripped = strip_cr(cur);
    if is_blank(stripped) {
        lines
    } else {
        lines.push(stripped)
    }
}

/// One character of the listing scan: a newline finishes the current line,
/// any other character extends it.
pub open spec fn parse_step(
    acc: (Seq<Seq<char>>, Seq<char>),
    c: char,
) -> (Seq<Seq<char>>, Seq<char>) {
    if c == '\n' {
        (emit_line(acc.0, acc.1), Seq::<char>::empty())
    } else {
        (acc.0, acc.1.push(c))
    }
}

pub open spec fn parse_fold(
    s: Seq<char>,
    acc: (Seq<Seq<char>>, Seq<char>),
) -> (Seq<Seq<char>>, Seq<char>)
    decreases s.len(),
{
    if s.len() == 0 {
        acc
    } else {
        parse_fold(s.drop_first(), parse_step(acc, s[0]))
    }
}

/// The file paths named by a raw listing: the non-blank lines, in order,
/// each without a trailing carriage return.
pub open spec fn parse_listing(s: Seq<char>) -> Seq<Seq<char>> {
    let folded = parse_fold(s, (Seq::<Seq<char>>::empty(), Seq::<char>::empty()));
    emit_line(folded.0, folded.1)
}

/// The views of a sequence of owned strings.
pub open spec fn views_of(v: Seq<String>) -> Seq<Seq<char>> {
    v.map_values(|s: String| s@)
}

/// Relies on `String::push`: appends the given character to the end of the string.
#[verifier::external_body]
pub fn push_char(s: &mut String, c: char)
    ensures
        final(s)@ == old(s)@.push(c),
{
    s.push(c);
}

fn emit_into(lines: &mut Vec<String>, cur: String)
    ensures
        views_of(final(lines)@) == emit_line(views_of(old(lines)@), cur@),
{
    let len = cur.as_str().unicode_len();
    let stripped: String = if len > 0 && cur.as_str().get_char(len - 1) == '\r' {
        cur.as_str().substring_char(0, len - 1).to_owned()
    } else {
        cur
    };
    proof {
        assert(stripped@ =~= strip_cr(cur@));
    }
    if !is_blank_str(stripped.as_str()) {
        let ghost before = views_of(lines@);
        let ghost sv = stripped@;
        lines.push(stripped);
        proof {
            assert(views_of(lines@) =~= before.push(sv));
        }
    }
}

/// Splits a raw file listing into the significant file paths, in listing order.
pub fn parse_file_list(listing: &str) -> (r: Vec<String>)
    ensures
        views_of(r@) == parse_listing(listing@),
{
    let ghost empty_acc = (Seq::<Seq<char>>::empty(), Seq::<char>::empty());
    let n = listing.unicode_len();
    let mut lines: Vec<String> = Vec::new();
    let mut cur: String = String::new();
    let mut i: usize = 0;
    while i < n
        invariant
            i <= n,
            n == listing@.len(),
            views_of(lines@) == parse_fold(listing@.take(i as int), empty_acc).0,
            cur@ == parse_fold(listing@.take(i as int), empty_acc).1,
        decreases n - i,
    {
        let c = listing.get_char(i);
        proof {
            assert(listing@.take(i + 1) =~= listing@.take(i as int).push(listing@[i as int]));
            lemma_parse_fold_push(listing@.take(i as int), empty_acc, c);
        }
        if c == '\n' {
            emit_into(&mut lines, cur);
            cur = String::new();
        } else {
            push_char(&mut cur, c);
        }
        i += 1;
    }
    proof {
        assert(listing@.take(n as int) =~= listing@);
    }
    emit_into(&mut lines, cur);
    lines
}

proof fn lemma_parse_fold_lines_nonblank(s: Seq<char>, acc: (Seq<Seq<char>>, Seq<char>))
    requires
        forall|i: int| 0 <= i < acc.0.len() ==> !is_blank(#[trigger] acc.0[i]),
    ensures
        forall|i: int|
            0 <= i < parse_fold(s, acc).0.len() ==> !is_blank(#[trigger] parse_fold(s, acc).0[i]),
    decreases s.len(),
{
    if s.len() == 0 {
        assert(parse_fold(s, acc) == acc);
    } else {
        let stepped = parse_step(acc, s[0]);
        assert(forall|i: int| 0 <= i < stepped.0.len() ==> !is_blank(#[trigger] stepped.0[i]));
        lemma_parse_fold_lines_nonblank(s.drop_first(), stepped);
        assert(parse_fold(s, acc) == parse_fold(s.drop_first(), stepped));
    }
}

/// Law: every path the listing parse yields is non-blank — a blank line of
/// the raw listing never becomes a file to probe.
pub proof fn lemma_parse_listing_nonblank(s: Seq<char>)
    ensures
        forall|i: int|
            0 <= i < parse_listing(s).len() ==> !is_blank(#[trigger] parse_listing(s)[i]),
{
    let empty_acc = (Seq::<Seq<char>>::empty(), Seq::<char>::empty());
    lemma_parse_fold_lines_nonblank(s, empty_acc);
}

pub proof fn lemma_parse_fold_push(s: Seq<char>, acc: (Seq<Seq<char>>, Seq<char>), c: char)
    ensures
        parse_fold(s.push(c), acc) == parse_step(parse_fold(s, acc), c),
    decreases s.len(),
{
    let t = s.push(c);
    assert(t.len() == s.len() + 1);
    if s.len() == 0 {
        assert(t[0] == c);
        assert(t.drop_first() =~= Seq::<char>::empty());
        assert(parse_fold(t, acc) == parse_fold(t.drop_first(), parse_step(acc, t[0])));
        assert(parse_fold(t.drop_first(), parse_step(acc, c)) == parse_step(acc, c));
        assert(parse_fold(s, acc) == acc);
    } else {
        assert(t[0] == s[0]);
        assert(t.drop_first() =~= s.drop_first().push(c));
        lemma_parse_fold_push(s.drop_first(), parse_step(acc, s[0]), c);
        assert(parse_fold(t, acc) == parse_fold(t.drop_first(), parse_step(acc, t[0])));
        assert(parse_fold(s, acc) == parse_fold(s.drop_first(), parse_step(acc, s[0])));
    }
}

} // verus!
