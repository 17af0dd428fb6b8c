//! The keystroke rules of the editor: auto-closing of brackets and quotes on
//! input, tab-to-indent, and auto-indent on newline. Each rule is a pure
//! function from the buffer text and the cursor (or selection) to the new
//! text and cursor.

use vstd::prelude::*;

verus! {

pub const NL: u8 = 10;
pub const SPACE: u8 = 32;
pub const HTAB: u8 = 9;
pub const CR: u8 = 13;
pub const VTAB: u8 = 11;
pub const FORMFEED: u8 = 12;
pub const LBRACE: u8 = 123;
pub const RBRACE: u8 = 125;
pub const LPAREN: u8 = 40;
pub const RPAREN: u8 = 41;
pub const LBRACKET: u8 = 91;
pub const RBRACKET: u8 = 93;
pub const DQUOTE: u8 = 34;
pub const SQUOTE: u8 = 39;

/// One level of indentation: four spaces.
pub open spec fn indent_unit() -> Seq<u8> {
    seq![SPACE, SPACE, SPACE, SPACE]
}

/// Replace `text[start..end]` with `patch`.
fn splice(text: &Vec<u8>, start: usize, end: usize, patch: &Vec<u8>) -> (r: Vec<u8>)
    requires
        start <= end <= text@.len(),
    ensures
        r@ == text@.subrange(0, start as int) + patch@ + text@.subrange(
            end as int,
            text@.len() as int,
        ),
{
    let mut r: Vec<u8> = Vec::new();
    let mut i: usize = 0;
    while i < start
        invariant
            i <= start <= end <= text@.len(),
            r@ == text@.subrange(0, i as int),
        decreases start - i,
    {
        r.push(text[i]);
        proof {
            assert(text@.subrange(0, i + 1) =~= text@.subrange(0, i as int).push(
                text@[i as int],
            ));
        }
        i += 1;
    }
    let mut j: usize = 0;
    while j < patch.len()
        invariant
            j <= patch@.len(),
            start <= end <= text@.len(),
            r@ == text@.subrange(0, start as int) + patch@.subrange(0, j as int),
        decreases patch@.len() - j,
    {
        r.push(patch[j]);
        proof {
            assert(patch@.subrange(0, j + 1) =~= patch@.subrange(0, j as int).push(
                patch@[j as int],
            ));
            assert(text@.subrange(0, start as int) + patch@.subrange(0, j + 1)
                =~= (text@.subrange(0, start as int) + patch@.subrange(0, j as int)).push(
                patch@[j as int],
            ));
        }
        j += 1;
    }
    proof {
        assert(patch@.subrange(0, patch@.len() as int) =~= patch@);
    }
    let mut k: usize = end;
    while k < text.len()
        invariant
            end <= k <= text@.len(),
            start <= end,
            r@ == text@.subrange(0, start as int) + patch@ + text@.subrange(end as int, k as int),
        decreases text@.len() - k,
    {
        r.push(text[k]);
        proof {
            assert(text@.subrange(end as int, k + 1) =~= text@.subrange(end as int, k as int).push(
                text@[k as int],
            ));
            assert(text@.subrange(0, start as int) + patch@ + text@.subrange(end as int, k + 1)
                =~= (text@.subrange(0, start as int) + patch@ + text@.subrange(
                end as int,
                k as int,
            )).push(text@[k as int]));
        }
        k += 1;
    }
    r
}

/// The characters whose typing triggers auto-closing.
pub open spec fn is_opener(b: u8) -> bool {
    b == LBRACE || b == LPAREN || b == LBRACKET || b == DQUOTE || b == SQUOTE
}

/// What is spliced in right after a just-typed opener: for a brace, a blank
/// line and the closing brace; for the others, the single matching closer.
pub open spec fn closer_text(b: u8) -> Seq<u8> {
    if b == LBRACE {
        seq![NL, NL, RBRACE]
    } else if b == LPAREN {
        seq![RPAREN]
    } else if b == LBRACKET {
        seq![RBRACKET]
    } else if b == DQUOTE {
        seq![DQUOTE]
    } else {
        seq![SQUOTE]
    }
}

/// What the input rule yields on a buffer `t` whose cursor `c` sits right
/// after the just-typed character. If that character is an opener, the
/// matching closer text is inserted at `c`; the cursor stays just after the
/// opener, except for a brace, where it moves onto the blank line. Any other
/// character leaves the buffer alone.
pub open spec fn auto_close_result(t: Seq<u8>, c: int) -> Option<(Seq<u8>, int)> {
    if 1 <= c <= t.len() && is_opener(t[c - 1]) {
        Some(
            (
                t.subrange(0, c) + closer_text(t[c - 1]) + t.subrange(c, t.len() as int),
                if t[c - 1] == LBRACE {
                    c + 1
                } else {
                    c
                },
            ),
        )
    } else {
        None
    }
}

/// The input rule: `text` is the buffer after a character was typed and
/// `cursor` sits right after it. Returns the new buffer and cursor when that
/// character is an opener, and `None` (no action) otherwise.
pub fn auto_close(text: &Vec<u8>, cursor: usize) -> (r: Option<(Vec<u8>, usize)>)
    requires
        cursor <= text@.len(),
    ensures
        r is Some <==> auto_close_result(text@, cursor as int) is Some,
        r matches Some(p) ==> {
            let q = auto_close_result(text@, cursor as int).unwrap();
            p.0@ == q.0 && p.1 as int == q.1 && p.1 <= p.0@.len()
        },
{
    if cursor == 0 {
        return None;
    }
    let typed = text[cursor - 1];
    if !(typed == LBRACE || typed == LPAREN || typed == LBRACKET || typed == DQUOTE || typed
        == SQUOTE) {
        return None;
    }
    let mut patch: Vec<u8> = Vec::new();
    if typed == LBRACE {
        patch.push(NL);
        patch.push(NL);
        patch.push(RBRACE);
    } else if typed == LPAREN {
        patch.push(RPAREN);
    } else if typed == LBRACKET {
        patch.push(RBRACKET);
    } else if typed == DQUOTE {
        patch.push(DQUOTE);
    } else {
        patch.push(SQUOTE);
    }
    proof {
        assert(patch@ =~= closer_text(text@[cursor - 1]));
    }
    let out = splice(text, cursor, cursor, &patch);
    proof {
        // the built vector fits in memory, so the new cursor fits in usize
        vstd::std_specs::vec::axiom_spec_len(&out);
    }
    let new_cursor = if typed == LBRACE {
        cursor + 1
    } else {
        cursor
    };
    Some((out, new_cursor))
}

/// Law: typing `{` at position `p` of a buffer `t` — so that the buffer the
/// input rule sees is `t[..p] + "{" + t[p..]` with the cursor at `p + 1` —
/// yields `t[..p] + "{\n\n}" + t[p..]` with the cursor at `p + 2`, on the
/// blank line between the braces.
pub proof fn lemma_type_brace(t: Seq<u8>, p: int)
    requires
        0 <= p <= t.len(),
    ensures
        ({
            let typed = t.subrange(0, p) + seq![LBRACE] + t.subrange(p, t.len() as int);
            auto_close_result(typed, p + 1) == Some(
                (t.subrange(0, p) + seq![LBRACE, NL, NL, RBRACE] + t.subrange(p, t.len() as int), p
                    + 2),
            )
        }),
{
    let typed = t.subrange(0, p) + seq![LBRACE] + t.subrange(p, t.len() as int);
    assert(typed[p] == LBRACE);
    assert(typed.subrange(0, p + 1) + closer_text(LBRACE) + typed.subrange(
        p + 1,
        typed.len() as int,
    ) =~= t.subrange(0, p) + seq![LBRACE, NL, NL, RBRACE] + t.subrange(p, t.len() as int));
}

/// Law: typing any opener other than `{` at position `p` of a buffer `t`
/// yields `t[..p] + opener + closer + t[p..]` with the cursor at `p + 1`,
/// between the pair.
pub proof fn lemma_type_pair(t: Seq<u8>, p: int, opener: u8)
    requires
        0 <= p <= t.len(),
        is_opener(opener),
        opener != LBRACE,
    ensures
        ({
            let typed = t.subrange(0, p) + seq![opener] + t.subrange(p, t.len() as int);
            auto_close_result(typed, p + 1) == Some(
                (t.subrange(0, p) + seq![opener] + closer_text(opener) + t.subrange(
                    p,
                    t.len() as int,
                ), p + 1),
            )
        }),
{
    let typed = t.subrange(0, p) + seq![opener] + t.subrange(p, t.len() as int);
    assert(typed[p] == opener);
    assert(typed.subrange(0, p + 1) + closer_text(opener) + typed.subrange(
        p + 1,
        typed.len() as int,
    ) =~= t.subrange(0, p) + seq![opener] + closer_text(opener) + t.subrange(p, t.len() as int));
}

/// What pressing Tab yields: the selection `[sel_start, sel_end)` is replaced
/// by one indent unit and the cursor lands right after it.
pub open spec fn tab_result(t: Seq<u8>, sel_start: int, sel_end: int) -> (Seq<u8>, int) {
    (t.subrange(0, sel_start) + indent_unit() + t.subrange(sel_end, t.len() as int), sel_start + 4)
}

/// Pressing Tab: replace the current selection (empty or not) with four
/// spaces and put the cursor just after them.
pub fn insert_tab(text: &Vec<u8>, sel_start: usize, sel_end: usize) -> (r: (Vec<u8>, usize))
    requires
        sel_start <= sel_end <= text@.len(),
    ensures
        r.0@ == tab_result(text@, sel_start as int, sel_end as int).0,
        r.1 as int == tab_result(text@, sel_start as int, sel_end as int).1,
        r.1 <= r.0@.len(),
{
    let mut patch: Vec<u8> = Vec::new();
    patch.push(SPACE);
    patch.push(SPACE);
    patch.push(SPACE);
    patch.push(SPACE);
    proof {
        assert(patch@ =~= indent_unit());
    }
    let out = splice(text, sel_start, sel_end, &patch);
    proof {
        // the built vector fits in memory, so the new cursor fits in usize
        vstd::std_specs::vec::axiom_spec_len(&out);
    }
    (out, sel_start + 4)
}

/// The bytes that count as whitespace when the indent of a line is measured
/// or its tail is trimmed: the ASCII whitespace characters.
pub open spec fn is_space(b: u8) -> bool {
    b == SPACE || b == HTAB || b == NL || b == CR || b == VTAB || b == FORMFEED
}

fn is_space_byte(b: u8) -> (r: bool)
    ensures
        r == is_space(b),
{
    b == SPACE || b == HTAB || b == NL || b == CR || b == VTAB || b == FORMFEED
}

/// Where the line holding position `c` starts: right after the last newline
/// strictly before `c`, or at the start of the buffer.
pub open spec fn line_start(t: Seq<u8>, c: int) -> int
    recommends
        0 <= c <= t.len(),
    decreases c,
{
    if c <= 0 {
        0
    } else if t[c - 1] == NL {
        c
    } else {
        line_start(t, c - 1)
    }
}

/// Where the leading whitespace run that starts at `i` ends, looking no
/// further than `c`.
pub open spec fn indent_end(t: Seq<u8>, i: int, c: int) -> int
    recommends
        0 <= i <= c <= t.len(),
    decreases c - i,
{
    if i >= c {
        c
    } else if is_space(t[i]) {
        indent_end(t, i + 1, c)
    } else {
        i
    }
}

/// Whether the line `t[i..c]`, with trailing whitespace trimmed, ends in an
/// opening brace.
pub open spec fn line_ends_with_brace(t: Seq<u8>, i: int, c: int) -> bool
    recommends
        0 <= i <= c <= t.len(),
    decreases c - i,
{
    if c <= i {
        false
    } else if is_space(t[c - 1]) {
        line_ends_with_brace(t, i, c - 1)
    } else {
        t[c - 1] == LBRACE
    }
}

/// The text that pressing Enter inserts at the cursor: a newline, the leading
/// whitespace of the current line, and one further indent unit when that
/// line (trimmed of trailing whitespace) ends in an opening brace.
pub open spec fn enter_insertion(t: Seq<u8>, c: int) -> Seq<u8> {
    let ls = line_start(t, c);
    seq![NL] + t.subrange(ls, indent_end(t, ls, c)) + if line_ends_with_brace(t, ls, c) {
        indent_unit()
    } else {
        Seq::<u8>::empty()
    }
}

/// What pressing Enter yields: the insertion spliced in at the cursor, with
/// the cursor moved to its end.
pub open spec fn enter_result(t: Seq<u8>, c: int) -> (Seq<u8>, int) {
    (
        t.subrange(0, c) + enter_insertion(t, c) + t.subrange(c, t.len() as int),
        c + enter_insertion(t, c).len(),
    )
}

/// Pressing Enter: insert a newline followed by the current line's leading
/// whitespace, extended by one indent unit when the line (trimmed of trailing
/// whitespace) ends in an opening brace; the cursor lands at the end of the
/// inserted text.
pub fn insert_newline(text: &Vec<u8>, cursor: usize) -> (r: (Vec<u8>, usize))
    requires
        cursor <= text@.len(),
    ensures
        r.0@ == enter_result(text@, cursor as int).0,
        r.1 as int == enter_result(text@, cursor as int).1,
        r.1 <= r.0@.len(),
{
    let ghost t = text@;
    let ghost c = cursor as int;

    let mut ls: usize = cursor;
    while ls > 0 && text[ls - 1] != NL
        invariant
            ls <= cursor <= t.len(),
            t == text@,
            line_start(t, c) == line_start(t, ls as int),
        decreases ls,
    {
        ls -= 1;
    }
    proof {
        assert(line_start(t, ls as int) == ls as int);
        assert(0 <= ls as int <= c);
    }

    let mut ie: usize = ls;
    while ie < cursor && is_space_byte(text[ie])
        invariant
            ls <= ie <= cursor <= t.len(),
            t == text@,
            indent_end(t, ls as int, c) == indent_end(t, ie as int, c),
        decreases cursor - ie,
    {
        ie += 1;
    }
    proof {
        assert(indent_end(t, ie as int, c) == ie as int);
    }

    let mut k: usize = cursor;
    while k > ls && is_space_byte(text[k - 1])
        invariant
            ls <= k <= cursor <= t.len(),
            t == text@,
            line_ends_with_brace(t, ls as int, c) == line_ends_with_brace(t, ls as int, k as int),
        decreases k,
    {
        k -= 1;
    }
    let brace = k > ls && text[k - 1] == LBRACE;
    proof {
        assert(brace == line_ends_with_brace(t, ls as int, c));
    }

    let mut patch: Vec<u8> = Vec::new();
    patch.push(NL);
    let mut m: usize = ls;
    while m < ie
        invariant
            ls <= m <= ie <= cursor <= t.len(),
            t == text@,
            patch@ == seq![NL] + t.subrange(ls as int, m as int),
        decreases ie - m,
    {
        patch.push(text[m]);
        proof {
            assert(seq![NL] + t.subrange(ls as int, m + 1) =~= (seq![NL] + t.subrange(
                ls as int,
                m as int,
            )).push(t[m as int]));
        }
        m += 1;
    }
    if brace {
        patch.push(SPACE);
        patch.push(SPACE);
        patch.push(SPACE);
        patch.push(SPACE);
    }
    proof {
        assert(patch@ =~= enter_insertion(t, c));
    }
    let plen = patch.len();
    let out = splice(text, cursor, cursor, &patch);
    proof {
        // the built vector fits in memory, so the new cursor fits in usize
        vstd::std_specs::vec::axiom_spec_len(&out);
    }
    (out, cursor + plen)
}

} // verus!
