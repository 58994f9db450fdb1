//! The on-disk storage codec.
//!
//! Tasks persist as a JSON object with a single `"task"` key holding an
//! array of `{"title": ..., "completed": ...}` objects; the field names and
//! nesting are the durable contract. Rendering is canonical: no added
//! whitespace, with `"` and `\` escaped inside titles. Parsing accepts the
//! canonical form; the loader degrades anything else to the empty
//! collection, so malformed data never fails a load.

use vstd::prelude::*;

use crate::text::{chars_to_string, str_chars};
use crate::{tasks_view, Task, TaskList, TaskV};

verus! {

// --- canonical rendering, at the level of character sequences ---

/// A character as it stands inside a rendered JSON string: quote and
/// backslash are escaped, everything else stands as itself.
pub open spec fn esc_char(c: char) -> Seq<char> {
    if c == '"' {
        seq!['\\', '"']
    } else if c == '\\' {
        seq!['\\', '\\']
    } else {
        seq![c]
    }
}

/// A title with every character escaped.
pub open spec fn esc(s: Seq<char>) -> Seq<char>
    decreases s.len(),
{
    if s.len() == 0 {
        Seq::empty()
    } else {
        esc_char(s[0]) + esc(s.skip(1))
    }
}

/// The characters of a rendered boolean.
pub open spec fn bool_chars(b: bool) -> Seq<char> {
    if b {
        seq!['t', 'r', 'u', 'e']
    } else {
        seq!['f', 'a', 'l', 's', 'e']
    }
}

/// The opening of the document: a `"task"` key and its array.
pub open spec fn doc_open() -> Seq<char> {
    seq!['{', '"', 't', 'a', 's', 'k', '"', ':', '[']
}

/// The opening of one item, up to and including the title's opening quote.
pub open spec fn item_open() -> Seq<char> {
    seq!['{', '"', 't', 'i', 't', 'l', 'e', '"', ':', '"']
}

/// Between the title's closing quote and the boolean.
pub open spec fn item_mid() -> Seq<char> {
    seq![',', '"', 'c', 'o', 'm', 'p', 'l', 'e', 't', 'e', 'd', '"', ':']
}

/// One rendered item.
pub open spec fn render_task(t: TaskV) -> Seq<char> {
    item_open() + esc(t.title) + seq!['"'] + item_mid() + bool_chars(t.completed) + seq!['}']
}

/// Rendered items after the first: each preceded by a comma.
pub open spec fn render_rest(ts: Seq<TaskV>) -> Seq<char>
    decreases ts.len(),
{
    if ts.len() == 0 {
        Seq::empty()
    } else {
        seq![','] + render_task(ts[0]) + render_rest(ts.skip(1))
    }
}

/// The rendered item array contents.
pub open spec fn render_items(ts: Seq<TaskV>) -> Seq<char>
    decreases ts.len(),
{
    if ts.len() == 0 {
        Seq::empty()
    } else {
        render_task(ts[0]) + render_rest(ts.skip(1))
    }
}

/// The canonical rendering of a whole collection.
pub open spec fn spec_render(ts: Seq<TaskV>) -> Seq<char> {
    doc_open() + render_items(ts) + seq![']', '}']
}

// --- parsing, each function consuming a prefix and yielding the suffix ---

/// The document opening.
pub open spec fn p_doc_open(s: Seq<char>) -> Option<Seq<char>> {
    if s.len() >= 9 && s[0] == '{' && s[1] == '"' && s[2] == 't' && s[3] == 'a' && s[4] == 's'
        && s[5] == 'k' && s[6] == '"' && s[7] == ':' && s[8] == '[' {
        Some(s.skip(9))
    } else {
        None
    }
}

/// The item opening.
pub open spec fn p_item_open(s: Seq<char>) -> Option<Seq<char>> {
    if s.len() >= 10 && s[0] == '{' && s[1] == '"' && s[2] == 't' && s[3] == 'i' && s[4] == 't'
        && s[5] == 'l' && s[6] == 'e' && s[7] == '"' && s[8] == ':' && s[9] == '"' {
        Some(s.skip(10))
    } else {
        None
    }
}

/// The middle of an item.
pub open spec fn p_item_mid(s: Seq<char>) -> Option<Seq<char>> {
    if s.len() >= 13 && s[0] == ',' && s[1] == '"' && s[2] == 'c' && s[3] == 'o' && s[4] == 'm'
        && s[5] == 'p' && s[6] == 'l' && s[7] == 'e' && s[8] == 't' && s[9] == 'e' && s[10] == 'd'
        && s[11] == '"' && s[12] == ':' {
        Some(s.skip(13))
    } else {
        None
    }
}

/// A boolean.
pub open spec fn p_bool(s: Seq<char>) -> Option<(bool, Seq<char>)> {
    if s.len() >= 4 && s[0] == 't' && s[1] == 'r' && s[2] == 'u' && s[3] == 'e' {
        Some((true, s.skip(4)))
    } else if s.len() >= 5 && s[0] == 'f' && s[1] == 'a' && s[2] == 'l' && s[3] == 's'
        && s[4] == 'e' {
        Some((false, s.skip(5)))
    } else {
        None
    }
}

/// A string body after its opening quote: the decoded characters and the
/// suffix after the closing quote. Only `\"` and `\\` escapes exist.
pub open spec fn p_string(s: Seq<char>) -> Option<(Seq<char>, Seq<char>)>
    decreases s.len(),
{
    if s.len() == 0 {
        None
    } else if s[0] == '"' {
        Some((Seq::empty(), s.skip(1)))
    } else if s[0] == '\\' {
        if s.len() >= 2 && (s[1] == '"' || s[1] == '\\') {
            match p_string(s.skip(2)) {
                Some((t, r)) => Some((seq![s[1]] + t, r)),
                None => None,
            }
        } else {
            None
        }
    } else {
        match p_string(s.skip(1)) {
            Some((t, r)) => Some((seq![s[0]] + t, r)),
            None => None,
        }
    }
}

/// One item.
pub open spec fn p_task(s: Seq<char>) -> Option<(TaskV, Seq<char>)> {
    match p_item_open(s) {
        Some(s1) => match p_string(s1) {
            Some((title, s2)) => match p_item_mid(s2) {
                Some(s3) => match p_bool(s3) {
                    Some((b, s4)) => if s4.len() >= 1 && s4[0] == '}' {
                        Some((TaskV { title, completed: b }, s4.skip(1)))
                    } else {
                        None
                    },
                    None => None,
                },
                None => None,
            },
            None => None,
        },
        None => None,
    }
}

/// The items after the first: the closing bracket, or a comma and a further
/// item each time.
pub open spec fn p_rest(s: Seq<char>) -> Option<(Seq<TaskV>, Seq<char>)>
    decreases s.len(),
{
    if s.len() == 0 {
        None
    } else if s[0] == ']' {
        Some((Seq::empty(), s.skip(1)))
    } else if s[0] == ',' {
        match p_task(s.skip(1)) {
            Some((t, s2)) => if s2.len() < s.len() {
                match p_rest(s2) {
                    Some((ts, s3)) => Some((seq![t] + ts, s3)),
                    None => None,
                }
            } else {
                None
            },
            None => None,
        }
    } else {
        None
    }
}

/// The item array contents, closing bracket included.
pub open spec fn p_items(s: Seq<char>) -> Option<(Seq<TaskV>, Seq<char>)> {
    if s.len() > 0 && s[0] == ']' {
        Some((Seq::empty(), s.skip(1)))
    } else {
        match p_task(s) {
            Some((t, s2)) => if s2.len() < s.len() {
                match p_rest(s2) {
                    Some((ts, s3)) => Some((seq![t] + ts, s3)),
                    None => None,
                }
            } else {
                None
            },
            None => None,
        }
    }
}

/// The whole document: exactly the object, nothing after it.
pub open spec fn spec_parse(s: Seq<char>) -> Option<Seq<TaskV>> {
    match p_doc_open(s) {
        Some(s1) => match p_items(s1) {
            Some((ts, s2)) => if s2 == seq!['}'] {
                Some(ts)
            } else {
                None
            },
            None => None,
        },
        None => None,
    }
}

// --- executable rendering ---

/// Escaping one character more extends the escape of the prefix.
proof fn lemma_esc_snoc(s: Seq<char>, c: char)
    ensures
        esc(s.push(c)) == esc(s) + esc_char(c),
    decreases s.len(),
{
    if s.len() == 0 {
        assert(s.push(c)[0] == c);
        assert(s.push(c).skip(1) =~= Seq::<char>::empty());
        assert(esc(s.push(c).skip(1)) == Seq::<char>::empty());
        assert(esc(s.push(c)) == esc_char(c) + Seq::<char>::empty());
        assert(esc(s) == Seq::<char>::empty());
        assert(esc_char(c) + Seq::<char>::empty() =~= Seq::<char>::empty() + esc_char(c));
    } else {
        lemma_esc_snoc(s.skip(1), c);
        assert(s.push(c)[0] == s[0]);
        assert(s.push(c).skip(1) =~= s.skip(1).push(c));
        assert(esc(s.push(c)) == esc_char(s[0]) + esc(s.skip(1).push(c)));
        assert(esc(s.push(c)) == esc_char(s[0]) + (esc(s.skip(1)) + esc_char(c)));
        assert(esc(s) == esc_char(s[0]) + esc(s.skip(1)));
        assert(esc_char(s[0]) + (esc(s.skip(1)) + esc_char(c)) =~= (esc_char(s[0]) + esc(
            s.skip(1),
        )) + esc_char(c));
    }
}

/// Appends the escaped characters of a title.
fn push_escaped(out: &mut Vec<char>, title: &str)
    ensures
        final(out)@ == old(out)@ + esc(title@),
{
    let n = title.unicode_len();
    let mut i: usize = 0;
    proof {
        assert(title@.take(0) =~= Seq::<char>::empty());
        assert(out@ =~= out@ + esc(title@.take(0)));
    }
    while i < n
        invariant
            i <= n,
            n == title@.len(),
            out@ == old(out)@ + esc(title@.take(i as int)),
        decreases n - i,
    {
        let c = title.get_char(i);
        if c == '"' {
            out.push('\\');
            out.push('"');
        } else if c == '\\' {
            out.push('\\');
            out.push('\\');
        } else {
            out.push(c);
        }
        proof {
            lemma_esc_snoc(title@.take(i as int), title@[i as int]);
            assert(title@.take(i + 1 as int) =~= title@.take(i as int).push(title@[i as int]));
            assert(out@ =~= old(out)@ + esc(title@.take(i + 1 as int)));
        }
        i = i + 1;
    }
    proof {
        assert(title@.take(n as int) =~= title@);
    }
}

/// Appends one rendered item.
#[verifier::rlimit(100)]
fn push_task(out: &mut Vec<char>, t: &Task)
    ensures
        final(out)@ == old(out)@ + render_task(t@),
{
    out.push('{');
    out.push('"');
    out.push('t');
    out.push('i');
    out.push('t');
    out.push('l');
    out.push('e');
    out.push('"');
    out.push(':');
    out.push('"');
    proof {
        assert(out@ =~= old(out)@ + item_open());
    }
    push_escaped(out, t.title.as_str());
    proof {
        assert(out@ =~= old(out)@ + item_open() + esc(t@.title));
    }
    out.push('"');
    out.push(',');
    out.push('"');
    out.push('c');
    out.push('o');
    out.push('m');
    out.push('p');
    out.push('l');
    out.push('e');
    out.push('t');
    out.push('e');
    out.push('d');
    out.push('"');
    out.push(':');
    proof {
        assert(out@ =~= old(out)@ + item_open() + esc(t@.title) + seq!['"'] + item_mid());
    }
    if t.completed {
        out.push('t');
        out.push('r');
        out.push('u');
        out.push('e');
    } else {
        out.push('f');
        out.push('a');
        out.push('l');
        out.push('s');
        out.push('e');
    }
    out.push('}');
    proof {
        assert(out@ =~= old(out)@ + render_task(t@));
    }
}

/// Appending a rendered item extends the rendering of the preceding rest.
proof fn lemma_render_rest_snoc(ts: Seq<TaskV>, t: TaskV)
    ensures
        render_rest(ts.push(t)) == render_rest(ts) + seq![','] + render_task(t),
    decreases ts.len(),
{
    if ts.len() == 0 {
        assert(ts.push(t)[0] == t);
        assert(ts.push(t).skip(1) =~= Seq::<TaskV>::empty());
        assert(render_rest(ts.push(t).skip(1)) == Seq::<char>::empty());
        assert(render_rest(ts.push(t)) == seq![','] + render_task(t) + Seq::<char>::empty());
        assert(render_rest(ts) == Seq::<char>::empty());
        assert(seq![','] + render_task(t) + Seq::<char>::empty() =~= Seq::<char>::empty()
            + seq![','] + render_task(t));
    } else {
        lemma_render_rest_snoc(ts.skip(1), t);
        assert(ts.push(t)[0] == ts[0]);
        assert(ts.push(t).skip(1) =~= ts.skip(1).push(t));
        assert(render_rest(ts.push(t)) == seq![','] + render_task(ts[0]) + render_rest(
            ts.skip(1).push(t),
        ));
        assert(render_rest(ts.push(t)) == seq![','] + render_task(ts[0]) + (render_rest(
            ts.skip(1),
        ) + seq![','] + render_task(t)));
        assert(render_rest(ts) == seq![','] + render_task(ts[0]) + render_rest(ts.skip(1)));
        assert(seq![','] + render_task(ts[0]) + (render_rest(ts.skip(1)) + seq![',']
            + render_task(t)) =~= (seq![','] + render_task(ts[0]) + render_rest(ts.skip(1)))
            + seq![','] + render_task(t));
    }
}

/// Renders a collection in the canonical storage form.
pub fn render_tasks(list: &TaskList) -> (r: String)
    ensures
        r@ == spec_render(list@),
{
    let ghost tv: Seq<TaskV> = list@;
    let mut out: Vec<char> = Vec::new();
    out.push('{');
    out.push('"');
    out.push('t');
    out.push('a');
    out.push('s');
    out.push('k');
    out.push('"');
    out.push(':');
    out.push('[');
    proof {
        assert(out@ =~= doc_open());
        assert(tasks_view(list.task@).len() == list.task@.len());
    }
    let n = list.task.len();
    if n > 0 {
        push_task(&mut out, &list.task[0]);
        let mut i: usize = 1;
        proof {
            assert(tv.subrange(1, 1) =~= Seq::<TaskV>::empty());
            assert(out@ =~= doc_open() + render_task(tv[0]) + render_rest(tv.subrange(1, 1)));
        }
        while i < n
            invariant
                1 <= i <= n,
                n == list.task@.len(),
                tv == tasks_view(list.task@),
                tv.len() == n,
                out@ == doc_open() + render_task(tv[0]) + render_rest(tv.subrange(1, i as int)),
            decreases n - i,
        {
            out.push(',');
            push_task(&mut out, &list.task[i]);
            proof {
                lemma_render_rest_snoc(tv.subrange(1, i as int), tv[i as int]);
                assert(tv.subrange(1, i + 1 as int) =~= tv.subrange(1, i as int).push(
                    tv[i as int],
                ));
                assert(list.task@[i as int]@ == tv[i as int]);
                assert(out@ =~= doc_open() + render_task(tv[0]) + render_rest(
                    tv.subrange(1, i + 1 as int),
                ));
            }
            i = i + 1;
        }
        proof {
            assert(tv.subrange(1, n as int) =~= tv.skip(1));
            assert(out@ =~= doc_open() + render_items(tv));
        }
    } else {
        proof {
            assert(tv.len() == 0);
            assert(out@ =~= doc_open() + render_items(tv));
        }
    }
    out.push(']');
    out.push('}');
    proof {
        assert(out@ =~= spec_render(tv));
    }
    chars_to_string(&out)
}

// --- executable parsing ---

/// Consumes the document opening at position `i`.
fn expect_doc_open(v: &Vec<char>, i: usize) -> (r: Option<usize>)
    requires
        i <= v@.len(),
    ensures
        match r {
            Some(j) => i <= j <= v@.len() && p_doc_open(v@.skip(i as int)) == Some(
                v@.skip(j as int),
            ),
            None => p_doc_open(v@.skip(i as int)) is None,
        },
{
    proof {
        assert(v@.skip(i as int).len() == v@.len() - i);
        assert(forall|q: int| 0 <= q < v@.len() - i ==> v@.skip(i as int)[q] == v@[i + q]);
    }
    if v.len() - i < 9 {
        return None;
    }
    if v[i] == '{' && v[i + 1] == '"' && v[i + 2] == 't' && v[i + 3] == 'a' && v[i + 4] == 's'
        && v[i + 5] == 'k' && v[i + 6] == '"' && v[i + 7] == ':' && v[i + 8] == '[' {
        proof {
            assert(v@.skip(i as int).skip(9) =~= v@.skip(i + 9));
        }
        Some(i + 9)
    } else {
        None
    }
}

/// Consumes the item opening at position `i`.
fn expect_item_open(v: &Vec<char>, i: usize) -> (r: Option<usize>)
    requires
        i <= v@.len(),
    ensures
        match r {
            Some(j) => i <= j <= v@.len() && p_item_open(v@.skip(i as int)) == Some(
                v@.skip(j as int),
            ),
            None => p_item_open(v@.skip(i as int)) is None,
        },
{
    proof {
        assert(v@.skip(i as int).len() == v@.len() - i);
        assert(forall|q: int| 0 <= q < v@.len() - i ==> v@.skip(i as int)[q] == v@[i + q]);
    }
    if v.len() - i < 10 {
        return None;
    }
    if v[i] == '{' && v[i + 1] == '"' && v[i + 2] == 't' && v[i + 3] == 'i' && v[i + 4] == 't'
        && v[i + 5] == 'l' && v[i + 6] == 'e' && v[i + 7] == '"' && v[i + 8] == ':'
        && v[i + 9] == '"' {
        proof {
            assert(v@.skip(i as int).skip(10) =~= v@.skip(i + 10));
        }
        Some(i + 10)
    } else {
        None
    }
}

/// Consumes the item middle at position `i`.
fn expect_item_mid(v: &Vec<char>, i: usize) -> (r: Option<usize>)
    requires
        i <= v@.len(),
    ensures
        match r {
            Some(j) => i <= j <= v@.len() && p_item_mid(v@.skip(i as int)) == Some(
                v@.skip(j as int),
            ),
            None => p_item_mid(v@.skip(i as int)) is None,
        },
{
    proof {
        assert(v@.skip(i as int).len() == v@.len() - i);
        assert(forall|q: int| 0 <= q < v@.len() - i ==> v@.skip(i as int)[q] == v@[i + q]);
    }
    if v.len() - i < 13 {
        return None;
    }
    if v[i] == ',' && v[i + 1] == '"' && v[i + 2] == 'c' && v[i + 3] == 'o' && v[i + 4] == 'm'
        && v[i + 5] == 'p' && v[i + 6] == 'l' && v[i + 7] == 'e' && v[i + 8] == 't'
        && v[i + 9] == 'e' && v[i + 10] == 'd' && v[i + 11] == '"' && v[i + 12] == ':' {
        proof {
            assert(v@.skip(i as int).skip(13) =~= v@.skip(i + 13));
        }
        Some(i + 13)
    } else {
        None
    }
}

/// Consumes a boolean at position `i`.
fn parse_bool_at(v: &Vec<char>, i: usize) -> (r: Option<(bool, usize)>)
    requires
        i <= v@.len(),
    ensures
        match r {
            Some((b, j)) => i <= j <= v@.len() && p_bool(v@.skip(i as int)) == Some(
                (b, v@.skip(j as int)),
            ),
            None => p_bool(v@.skip(i as int)) is None,
        },
{
    proof {
        assert(v@.skip(i as int).len() == v@.len() - i);
        assert(forall|q: int| 0 <= q < v@.len() - i ==> v@.skip(i as int)[q] == v@[i + q]);
    }
    if v.len() - i >= 4 && v[i] == 't' && v[i + 1] == 'r' && v[i + 2] == 'u' && v[i + 3] == 'e' {
        proof {
            assert(v@.skip(i as int).skip(4) =~= v@.skip(i + 4));
        }
        Some((true, i + 4))
    } else if v.len() - i >= 5 && v[i] == 'f' && v[i + 1] == 'a' && v[i + 2] == 'l'
        && v[i + 3] == 's' && v[i + 4] == 'e' {
        proof {
            assert(v@.skip(i as int).skip(5) =~= v@.skip(i + 5));
        }
        Some((false, i + 5))
    } else {
        None
    }
}

/// Consumes a string body (after its opening quote) at position `i`,
/// decoding the two escapes.
fn parse_string_at(v: &Vec<char>, i: usize) -> (r: Option<(Vec<char>, usize)>)
    requires
        i <= v@.len(),
    ensures
        match r {
            Some((out, j)) => i <= j <= v@.len() && p_string(v@.skip(i as int)) == Some(
                (out@, v@.skip(j as int)),
            ),
            None => p_string(v@.skip(i as int)) is None,
        },
{
    let mut out: Vec<char> = Vec::new();
    let mut cur: usize = i;
    loop
        invariant
            i <= cur <= v@.len(),
            (match p_string(v@.skip(cur as int)) {
                Some((t, rest)) => p_string(v@.skip(i as int)) == Some((out@ + t, rest)),
                None => p_string(v@.skip(i as int)) is None,
            }),
        decreases v@.len() - cur,
    {
        let ghost s = v@.skip(cur as int);
        proof {
            assert(s.len() == v@.len() - cur);
            assert(forall|q: int| 0 <= q < s.len() ==> s[q] == v@[cur + q]);
        }
        if cur == v.len() {
            proof {
                assert(p_string(s) is None);
            }
            return None;
        }
        let c = v[cur];
        if c == '"' {
            proof {
                assert(s.skip(1) =~= v@.skip(cur + 1));
                assert(p_string(s) == Some((Seq::<char>::empty(), v@.skip(cur + 1))));
                assert(out@ + Seq::<char>::empty() =~= out@);
            }
            return Some((out, cur + 1));
        } else if c == '\\' {
            if cur + 1 == v.len() {
                proof {
                    assert(s.len() == 1);
                    assert(p_string(s) is None);
                }
                return None;
            }
            let e = v[cur + 1];
            if e == '"' || e == '\\' {
                proof {
                    assert(s.skip(2) =~= v@.skip(cur + 2));
                    let inner = p_string(v@.skip(cur + 2));
                    if inner is Some {
                        let pair = inner->Some_0;
                        let t = pair.0;
                        assert(p_string(s) == Some((seq![e] + t, pair.1)));
                        assert(out@ + (seq![e] + t) =~= out@.push(e) + t);
                    } else {
                        assert(p_string(s) is None);
                    }
                }
                out.push(e);
                cur = cur + 2;
            } else {
                proof {
                    assert(p_string(s) is None);
                }
                return None;
            }
        } else {
            proof {
                assert(s.skip(1) =~= v@.skip(cur + 1));
                let inner = p_string(v@.skip(cur + 1));
                if inner is Some {
                    let pair = inner->Some_0;
                    let t = pair.0;
                    assert(p_string(s) == Some((seq![c] + t, pair.1)));
                    assert(out@ + (seq![c] + t) =~= out@.push(c) + t);
                } else {
                    assert(p_string(s) is None);
                }
            }
            out.push(c);
            cur = cur + 1;
        }
    }
}

/// Consumes one item at position `i`.
fn parse_task_at(v: &Vec<char>, i: usize) -> (r: Option<(Task, usize)>)
    requires
        i <= v@.len(),
    ensures
        match r {
            Some((t, j)) => i < j <= v@.len() && p_task(v@.skip(i as int)) == Some(
                (t@, v@.skip(j as int)),
            ),
            None => p_task(v@.skip(i as int)) is None,
        },
{
    let j0 = match expect_item_open(v, i) {
        Some(j) => j,
        None => {
            return None;
        },
    };
    let (title_chars, j1) = match parse_string_at(v, j0) {
        Some(x) => x,
        None => {
            return None;
        },
    };
    let j2 = match expect_item_mid(v, j1) {
        Some(j) => j,
        None => {
            return None;
        },
    };
    let (completed, j3) = match parse_bool_at(v, j2) {
        Some(x) => x,
        None => {
            return None;
        },
    };
    proof {
        assert(v@.skip(j3 as int).len() == v@.len() - j3);
        assert(v@.len() - j3 >= 1 ==> v@.skip(j3 as int)[0] == v@[j3 as int]);
    }
    if j3 < v.len() && v[j3] == '}' {
        proof {
            assert(v@.skip(j3 as int).skip(1) =~= v@.skip(j3 + 1));
        }
        let title = chars_to_string(&title_chars);
        Some((Task { title, completed }, j3 + 1))
    } else {
        None
    }
}

/// Consumes the item array contents (closing bracket included) at `i`.
fn parse_items_at(v: &Vec<char>, i: usize) -> (r: Option<(Vec<Task>, usize)>)
    requires
        i <= v@.len(),
    ensures
        match r {
            Some((ts, j)) => i <= j <= v@.len() && p_items(v@.skip(i as int)) == Some(
                (tasks_view(ts@), v@.skip(j as int)),
            ),
            None => p_items(v@.skip(i as int)) is None,
        },
{
    proof {
        assert(v@.skip(i as int).len() == v@.len() - i);
        assert(v@.len() - i >= 1 ==> v@.skip(i as int)[0] == v@[i as int]);
    }
    if i < v.len() && v[i] == ']' {
        let ts: Vec<Task> = Vec::new();
        proof {
            assert(v@.skip(i as int).skip(1) =~= v@.skip(i + 1));
            assert(tasks_view(ts@) =~= Seq::<TaskV>::empty());
        }
        return Some((ts, i + 1));
    }
    let (t0, first_end) = match parse_task_at(v, i) {
        Some(x) => x,
        None => {
            return None;
        },
    };
    let mut ts: Vec<Task> = Vec::new();
    ts.push(t0);
    let mut cur: usize = first_end;
    proof {
        assert(v@.skip(first_end as int).len() < v@.skip(i as int).len());
    }
    loop
        invariant
            i <= cur <= v@.len(),
            (match p_rest(v@.skip(cur as int)) {
                Some((more, rest)) => p_items(v@.skip(i as int)) == Some(
                    (tasks_view(ts@) + more, rest),
                ),
                None => p_items(v@.skip(i as int)) is None,
            }),
        decreases v@.len() - cur,
    {
        let ghost s = v@.skip(cur as int);
        proof {
            assert(s.len() == v@.len() - cur);
            assert(s.len() >= 1 ==> s[0] == v@[cur as int]);
        }
        if cur == v.len() {
            proof {
                assert(p_rest(s) is None);
            }
            return None;
        }
        let c = v[cur];
        if c == ']' {
            proof {
                assert(s.skip(1) =~= v@.skip(cur + 1));
                assert(p_rest(s) == Some((Seq::<TaskV>::empty(), v@.skip(cur + 1))));
                assert(tasks_view(ts@) + Seq::<TaskV>::empty() =~= tasks_view(ts@));
            }
            return Some((ts, cur + 1));
        } else if c == ',' {
            match parse_task_at(v, cur + 1) {
                Some((t, j)) => {
                    proof {
                        assert(s.skip(1) =~= v@.skip(cur + 1 as int));
                        assert(v@.skip(j as int).len() < s.len());
                        let inner = p_rest(v@.skip(j as int));
                        if inner is Some {
                            let pair = inner->Some_0;
                            let more = pair.0;
                            assert(p_rest(s) == Some((seq![t@] + more, pair.1)));
                            assert(tasks_view(ts@.push(t)) =~= tasks_view(ts@).push(t@));
                            assert(tasks_view(ts@) + (seq![t@] + more) =~= tasks_view(
                                ts@,
                            ).push(t@) + more);
                        } else {
                            assert(p_rest(s) is None);
                        }
                    }
                    ts.push(t);
                    cur = j;
                },
                None => {
                    proof {
                        assert(s.skip(1) =~= v@.skip(cur + 1 as int));
                        assert(p_rest(s) is None);
                    }
                    return None;
                },
            }
        } else {
            proof {
                assert(p_rest(s) is None);
            }
            return None;
        }
    }
}

/// Parses a stored document. Returns the collection exactly when the text
/// is a well-formed document, and `None` otherwise.
pub fn parse_tasks(text: &str) -> (r: Option<TaskList>)
    ensures
        match r {
            Some(l) => spec_parse(text@) == Some(l@),
            None => spec_parse(text@) is None,
        },
{
    let v = str_chars(text);
    proof {
        assert(v@.skip(0) =~= v@);
    }
    let j0 = match expect_doc_open(&v, 0) {
        Some(j) => j,
        None => {
            return None;
        },
    };
    let (ts, j1) = match parse_items_at(&v, j0) {
        Some(x) => x,
        None => {
            return None;
        },
    };
    proof {
        assert(v@.skip(j1 as int).len() == v@.len() - j1);
        assert(v@.len() - j1 >= 1 ==> v@.skip(j1 as int)[0] == v@[j1 as int]);
    }
    if j1 < v.len() && v[j1] == '}' && j1 + 1 == v.len() {
        proof {
            assert(v@.skip(j1 as int) =~= seq!['}']);
        }
        Some(TaskList { task: ts })
    } else {
        proof {
            assert(v@.skip(j1 as int) != seq!['}']);
        }
        None
    }
}

/// Loads a collection from stored text: a well-formed document yields its
/// collection, anything else degrades to the empty collection.
pub fn tasks_from_text(text: &str) -> (l: TaskList)
    ensures
        l@ == (match spec_parse(text@) {
            Some(ts) => ts,
            None => Seq::<TaskV>::empty(),
        }),
{
    match parse_tasks(text) {
        Some(l) => l,
        None => {
            let l = TaskList { task: Vec::new() };
            proof {
                assert(l@ =~= Seq::<TaskV>::empty());
            }
            l
        },
    }
}

// --- the round trip: parsing a rendering gives the collection back ---

/// An escaped title followed by its closing quote parses back to the title.
proof fn lemma_p_string_of_esc(title: Seq<char>, rest: Seq<char>)
    ensures
        p_string(esc(title) + (seq!['"'] + rest)) == Some((title, rest)),
    decreases title.len(),
{
    if title.len() == 0 {
        assert(esc(title) + (seq!['"'] + rest) =~= seq!['"'] + rest);
        let s = seq!['"'] + rest;
        assert(s[0] == '"');
        assert(s.skip(1) =~= rest);
        assert(Seq::<char>::empty() =~= title);
    } else {
        lemma_p_string_of_esc(title.skip(1), rest);
        let c = title[0];
        let s = esc(title) + (seq!['"'] + rest);
        assert(esc(title) == esc_char(c) + esc(title.skip(1)));
        if c == '"' || c == '\\' {
            assert(esc_char(c) =~= seq!['\\', c]);
            assert(s[0] == '\\');
            assert(s[1] == c);
            assert(s.len() >= 2);
            assert(s.skip(2) =~= esc(title.skip(1)) + (seq!['"'] + rest));
            assert(p_string(s.skip(2)) == Some((title.skip(1), rest)));
            assert(p_string(s) == Some((seq![c] + title.skip(1), rest)));
            assert(seq![c] + title.skip(1) =~= title);
        } else {
            assert(esc_char(c) =~= seq![c]);
            assert(s[0] == c);
            assert(s.skip(1) =~= esc(title.skip(1)) + (seq!['"'] + rest));
            assert(p_string(s.skip(1)) == Some((title.skip(1), rest)));
            assert(p_string(s) == Some((seq![c] + title.skip(1), rest)));
            assert(seq![c] + title.skip(1) =~= title);
        }
    }
}

/// A rendered item parses back to its value.
#[verifier::rlimit(60)]
proof fn lemma_p_task_of_render(t: TaskV, rest: Seq<char>)
    ensures
        p_task(render_task(t) + rest) == Some((t, rest)),
{
    let s = render_task(t) + rest;
    let r1 = esc(t.title) + (seq!['"'] + (item_mid() + (bool_chars(t.completed) + (seq!['}']
        + rest))));
    assert(s =~= item_open() + r1);
    assert(s.len() >= 10);
    assert(forall|q: int| 0 <= q < 10 ==> s[q] == item_open()[q]);
    assert(s.skip(10) =~= r1);
    assert(p_item_open(s) == Some(r1));
    let r2 = item_mid() + (bool_chars(t.completed) + (seq!['}'] + rest));
    lemma_p_string_of_esc(t.title, r2);
    assert(p_string(r1) == Some((t.title, r2)));
    let r3 = bool_chars(t.completed) + (seq!['}'] + rest);
    assert(r2.len() >= 13);
    assert(forall|q: int| 0 <= q < 13 ==> r2[q] == item_mid()[q]);
    assert(r2.skip(13) =~= r3);
    assert(p_item_mid(r2) == Some(r3));
    let r4 = seq!['}'] + rest;
    if t.completed {
        assert(forall|q: int| 0 <= q < 4 ==> r3[q] == bool_chars(true)[q]);
        assert(r3.skip(4) =~= r4);
        assert(p_bool(r3) == Some((true, r4)));
    } else {
        assert(r3[0] == 'f');
        assert(forall|q: int| 0 <= q < 5 ==> r3[q] == bool_chars(false)[q]);
        assert(r3.skip(5) =~= r4);
        assert(p_bool(r3) == Some((false, r4)));
    }
    assert(r4[0] == '}');
    assert(r4.skip(1) =~= rest);
    assert(t =~= (TaskV { title: t.title, completed: t.completed }));
}

/// Rendered items after the first, closed by the bracket, parse back.
proof fn lemma_p_rest_of_render(ts: Seq<TaskV>, rest: Seq<char>)
    ensures
        p_rest(render_rest(ts) + (seq![']'] + rest)) == Some((ts, rest)),
    decreases ts.len(),
{
    if ts.len() == 0 {
        let s = render_rest(ts) + (seq![']'] + rest);
        assert(s =~= seq![']'] + rest);
        assert(s[0] == ']');
        assert(s.skip(1) =~= rest);
        assert(Seq::<TaskV>::empty() =~= ts);
    } else {
        lemma_p_rest_of_render(ts.skip(1), rest);
        let s = render_rest(ts) + (seq![']'] + rest);
        let s2 = render_rest(ts.skip(1)) + (seq![']'] + rest);
        assert(s =~= seq![','] + (render_task(ts[0]) + s2));
        assert(s[0] == ',');
        assert(s.skip(1) =~= render_task(ts[0]) + s2);
        lemma_p_task_of_render(ts[0], s2);
        assert(p_task(s.skip(1)) == Some((ts[0], s2)));
        assert(item_open().len() == 10);
        assert(render_task(ts[0]).len() >= 10);
        assert(s2.len() < s.len());
        assert(p_rest(s2) == Some((ts.skip(1), rest)));
        assert(p_rest(s) == Some((seq![ts[0]] + ts.skip(1), rest)));
        assert(seq![ts[0]] + ts.skip(1) =~= ts);
    }
}

/// The rendered item array parses back.
proof fn lemma_p_items_of_render(ts: Seq<TaskV>, rest: Seq<char>)
    ensures
        p_items(render_items(ts) + (seq![']'] + rest)) == Some((ts, rest)),
{
    if ts.len() == 0 {
        let s = render_items(ts) + (seq![']'] + rest);
        assert(s =~= seq![']'] + rest);
        assert(s[0] == ']');
        assert(s.skip(1) =~= rest);
        assert(Seq::<TaskV>::empty() =~= ts);
    } else {
        let s = render_items(ts) + (seq![']'] + rest);
        let s2 = render_rest(ts.skip(1)) + (seq![']'] + rest);
        assert(s =~= render_task(ts[0]) + s2);
        assert(render_task(ts[0])[0] == item_open()[0]);
        assert(s[0] == '{');
        lemma_p_task_of_render(ts[0], s2);
        assert(p_task(s) == Some((ts[0], s2)));
        assert(item_open().len() == 10);
        assert(render_task(ts[0]).len() >= 10);
        assert(s2.len() < s.len());
        lemma_p_rest_of_render(ts.skip(1), rest);
        assert(p_rest(s2) == Some((ts.skip(1), rest)));
        assert(p_items(s) == Some((seq![ts[0]] + ts.skip(1), rest)));
        assert(seq![ts[0]] + ts.skip(1) =~= ts);
    }
}

/// The round trip: rendering any collection and parsing the result gives
/// back exactly that collection, order and field values preserved. In
/// particular a load followed by a save reproduces a well-formed stored
/// document's collection.
pub proof fn lemma_parse_render_roundtrip(ts: Seq<TaskV>)
    ensures
        spec_parse(spec_render(ts)) == Some(ts),
{
    let s = spec_render(ts);
    let s1 = render_items(ts) + (seq![']'] + seq!['}']);
    assert(s =~= doc_open() + s1);
    assert(s.len() >= 9);
    assert(forall|q: int| 0 <= q < 9 ==> s[q] == doc_open()[q]);
    assert(s.skip(9) =~= s1);
    assert(p_doc_open(s) == Some(s1));
    lemma_p_items_of_render(ts, seq!['}']);
    assert(p_items(s1) == Some((ts, seq!['}'])));
}

} // verus!
