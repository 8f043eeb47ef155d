//! Deterministic rendering: the analysis prompt built from the collected
//! changes, and the JSON request body that carries it. Both are pure
//! functions of their input — no clock, no randomness, no environment.

use vstd::prelude::*;
use vstd::string::{StrSliceExecFns, StringExecFns};
use crate::changes::{changes_of, ChangeModel, GitDiff};
use crate::text::push_char;

verus! {

/// The fixed instructional preamble: the four required findings per change
/// and the expected output structure.
pub open spec fn preamble() -> Seq<char> {
    "You are a senior code review expert. Analyze the following git diffs to identify potential breaking changes that could affect the behavior of the software. For each change, determine:\n1. Whether it's a breaking change (yes/no)\n2. The severity (low/medium/high)\n3. What behavior might be affected\n4. Suggestions to prevent or mitigate the breaking change\n\nPlease provide a structured analysis in the following format:\n## Summary\n[Overall assessment]\n\n## Detailed Analysis\n### File: [filename]\n- **Breaking Change**: [yes/no]\n- **Severity**: [low/medium/high]\n- **Impact**: [description of what might break]\n- **Suggestions**: [how to prevent/mitigate]\n\nHere are the diffs to analyze:\n\n"@
}

/// One rendered block: the file path under its heading, then the literal
/// diff text, unmodified, in a fenced section.
pub open spec fn change_block(c: ChangeModel) -> Seq<char> {
    "### File: "@ + c.path + "\n```diff\n"@ + c.text + "\n```\n\n"@
}

pub open spec fn blocks_of(cs: Seq<ChangeModel>) -> Seq<char>
    decreases cs.len(),
{
    if cs.len() == 0 {
        Seq::empty()
    } else {
        change_block(cs[0]) + blocks_of(cs.drop_first())
    }
}

/// The full prompt: the fixed preamble followed by one block per change, in
/// input order.
pub open spec fn prompt_of(cs: Seq<ChangeModel>) -> Seq<char> {
    preamble() + blocks_of(cs)
}

pub proof fn lemma_blocks_of_push(cs: Seq<ChangeModel>, c: ChangeModel)
    ensures
        blocks_of(cs.push(c)) =~= blocks_of(cs) + change_block(c),
    decreases cs.len(),
{
    let t = cs.push(c);
    assert(t.len() == cs.len() + 1);
    if cs.len() == 0 {
        assert(t[0] == c);
        assert(t.drop_first() =~= Seq::<ChangeModel>::empty());
        assert(blocks_of(t) == change_block(t[0]) + blocks_of(t.drop_first()));
        assert(blocks_of(Seq::<ChangeModel>::empty()) == Seq::<char>::empty());
    } else {
        assert(t[0] == cs[0]);
        assert(t.drop_first() =~= cs.drop_first().push(c));
        lemma_blocks_of_push(cs.drop_first(), c);
        assert(blocks_of(t) == change_block(t[0]) + blocks_of(t.drop_first()));
        assert(blocks_of(cs) == change_block(cs[0]) + blocks_of(cs.drop_first()));
    }
}

/// Law: the prompt is a pure function of the ordered change sequence — the
/// same changes, in the same order, always render the same text.
pub proof fn lemma_prompt_deterministic(a: Seq<ChangeModel>, b: Seq<ChangeModel>)
    requires
        a == b,
    ensures
        prompt_of(a) == prompt_of(b),
{
}

/// Renders the analysis request for the given changes.
pub fn build_prompt(changes: &Vec<GitDiff>) -> (r: String)
    ensures
        r@ == prompt_of(changes_of(changes@)),
{
    let ghost models = changes_of(changes@);
    let mut out = String::from_str(
        "You are a senior code review expert. Analyze the following git diffs to identify potential breaking changes that could affect the behavior of the software. For each change, determine:\n1. Whether it's a breaking change (yes/no)\n2. The severity (low/medium/high)\n3. What behavior might be affected\n4. Suggestions to prevent or mitigate the breaking change\n\nPlease provide a structured analysis in the following format:\n## Summary\n[Overall assessment]\n\n## Detailed Analysis\n### File: [filename]\n- **Breaking Change**: [yes/no]\n- **Severity**: [low/medium/high]\n- **Impact**: [description of what might break]\n- **Suggestions**: [how to prevent/mitigate]\n\nHere are the diffs to analyze:\n\n",
    );
    let n = changes.len();
    let mut i: usize = 0;
    while i < n
        invariant
            i <= n,
            n == changes@.len(),
            models == changes_of(changes@),
            out@ == preamble() + blocks_of(models.take(i as int)),
        decreases n - i,
    {
        proof {
            assert(models.take(i + 1) =~= models.take(i as int).push(models[i as int]));
            lemma_blocks_of_push(models.take(i as int), models[i as int]);
        }
        out.append("### File: ");
        out.append(changes[i].file_path.as_str());
        out.append("\n```diff\n");
        out.append(changes[i].content.as_str());
        out.append("\n```\n\n");
        proof {
            assert(out@ =~= preamble() + blocks_of(models.take(i + 1)));
        }
        i += 1;
    }
    proof {
        assert(models.take(n as int) =~= models);
    }
    out
}

pub open spec fn hex_digit(d: int) -> char {
    if d == 0 { '0' }
    else if d == 1 { '1' }
    else if d == 2 { '2' }
    else if d == 3 { '3' }
    else if d == 4 { '4' }
    else if d == 5 { '5' }
    else if d == 6 { '6' }
    else if d == 7 { '7' }
    else if d == 8 { '8' }
    else if d == 9 { '9' }
    else if d == 10 { 'a' }
    else if d == 11 { 'b' }
    else if d == 12 { 'c' }
    else if d == 13 { 'd' }
    else if d == 14 { 'e' }
    else { 'f' }
}

/// How one character appears inside a JSON string literal: quotes and
/// backslashes escaped, control characters as their short escapes or as
/// `\u00..`, every other character as itself.
pub open spec fn escaped_char(c: char) -> Seq<char> {
    if c == '"' { seq!['\\', '"'] }
    else if c == '\\' { seq!['\\', '\\'] }
    else if c == '\n' { seq!['\\', 'n'] }
    else if c == '\r' { seq!['\\', 'r'] }
    else if c == '\t' { seq!['\\', 't'] }
    else if c == '\u{8}' { seq!['\\', 'b'] }
    else if c == '\u{c}' { seq!['\\', 'f'] }
    else if (c as u32) < 0x20 {
        seq!['\\', 'u', '0', '0', hex_digit(c as u32 as int / 16), hex_digit(c as u32 as int % 16)]
    } else {
        seq![c]
    }
}

/// The body of the JSON string literal that denotes `s`.
pub open spec fn json_escaped(s: Seq<char>) -> Seq<char>
    decreases s.len(),
{
    if s.len() == 0 {
        Seq::empty()
    } else {
        escaped_char(s[0]) + json_escaped(s.drop_first())
    }
}

pub proof fn lemma_json_escaped_push(s: Seq<char>, c: char)
    ensures
        json_escaped(s.push(c)) =~= json_escaped(s) + escaped_char(c),
    decreases s.len(),
{
    let t = s.push(c);
    assert(t.len() == s.len() + 1);
    if s.len() == 0 {
        assert(t[0] == c);
        assert(t.drop_first() =~= Seq::<char>::empty());
        assert(json_escaped(t) == escaped_char(t[0]) + json_escaped(t.drop_first()));
        assert(json_escaped(Seq::<char>::empty()) == Seq::<char>::empty());
    } else {
        assert(t[0] == s[0]);
        assert(t.drop_first() =~= s.drop_first().push(c));
        lemma_json_escaped_push(s.drop_first(), c);
        assert(json_escaped(t) == escaped_char(t[0]) + json_escaped(t.drop_first()));
        assert(json_escaped(s) == escaped_char(s[0]) + json_escaped(s.drop_first()));
    }
}

fn hex_digit_char(d: u32) -> (c: char)
    requires
        d < 16,
    ensures
        c == hex_digit(d as int),
{
    match d {
        0 => '0',
        1 => '1',
        2 => '2',
        3 => '3',
        4 => '4',
        5 => '5',
        6 => '6',
        7 => '7',
        8 => '8',
        9 => '9',
        10 => 'a',
        11 => 'b',
        12 => 'c',
        13 => 'd',
        14 => 'e',
        _ => 'f',
    }
}

/// Appends `s`, JSON-escaped, to `out`.
pub fn append_escaped(out: &mut String, s: &str)
    ensures
        final(out)@ == old(out)@ + json_escaped(s@),
{
    let n = s.unicode_len();
    let mut i: usize = 0;
    while i < n
        invariant
            i <= n,
            n == s@.len(),
            out@ == old(out)@ + json_escaped(s@.take(i as int)),
        decreases n - i,
    {
        let c = s.get_char(i);
        proof {
            assert(s@.take(i + 1) =~= s@.take(i as int).push(s@[i as int]));
            lemma_json_escaped_push(s@.take(i as int), c);
        }
        if c == '"' {
            push_char(out, '\\');
            push_char(out, '"');
        } else if c == '\\' {
            push_char(out, '\\');
            push_char(out, '\\');
        } else if c == '\n' {
            push_char(out, '\\');
            push_char(out, 'n');
        } else if c == '\r' {
            push_char(out, '\\');
            push_char(out, 'r');
        } else if c == '\t' {
            push_char(out, '\\');
            push_char(out, 't');
        } else if c == '\u{8}' {
            push_char(out, '\\');
            push_char(out, 'b');
        } else if c == '\u{c}' {
            push_char(out, '\\');
            push_char(out, 'f');
        } else if (c as u32) < 0x20 {
            push_char(out, '\\');
            push_char(out, 'u');
            push_char(out, '0');
            push_char(out, '0');
            push_char(out, hex_digit_char((c as u32) / 16));
            push_char(out, hex_digit_char((c as u32) % 16));
        } else {
            push_char(out, c);
        }
        proof {
            assert(out@ =~= old(out)@ + json_escaped(s@.take(i + 1)));
        }
        i += 1;
    }
    proof {
        assert(s@.take(n as int) =~= s@);
    }
}

/// Everything of the request body that stands before the rendered prompt:
/// the fixed model identifier and the fixed system-role message.
pub open spec fn body_prefix() -> Seq<char> {
    "{\"model\":\"kimi-k2-0711-preview\",\"messages\":[{\"role\":\"system\",\"content\":\"You are an expert in code review, specializing in identifying breaking changes and potential issues in code modifications.\"},{\"role\":\"user\",\"content\":\""@
}

/// Everything after the prompt: the fixed low-temperature sampling parameter.
pub open spec fn body_suffix() -> Seq<char> {
    "\"}],\"temperature\":0.3}"@
}

/// The JSON request body that carries `prompt` as the user message.
pub open spec fn request_body_of(prompt: Seq<char>) -> Seq<char> {
    body_prefix() + json_escaped(prompt) + body_suffix()
}

/// Renders the JSON request body for the chat-completion endpoint.
pub fn build_request_body(prompt: &str) -> (r: String)
    ensures
        r@ == request_body_of(prompt@),
{
    let mut out = String::from_str(
        "{\"model\":\"kimi-k2-0711-preview\",\"messages\":[{\"role\":\"system\",\"content\":\"You are an expert in code review, specializing in identifying breaking changes and potential issues in code modifications.\"},{\"role\":\"user\",\"content\":\"",
    );
    append_escaped(&mut out, prompt);
    out.append("\"}],\"temperature\":0.3}");
    proof {
        assert(out@ =~= request_body_of(prompt@));
    }
    out
}

} // verus!
