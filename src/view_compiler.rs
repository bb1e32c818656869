use vstd::prelude::*;
use vstd::view::View as ModelView;
use crate::data::{strings_view, PartModel, View, ViewModel, ViewPart};
use crate::error::ParseError;
use crate::text::{chars_of, is_blank, is_blank_range, string_of_range};

verus! {

/// The first index `j >= i` where the code marker `#[` begins.
pub open spec fn marker_from(t: Seq<char>, i: int) -> Option<int>
    decreases t.len() - i,
{
    if i < 0 || i + 1 >= t.len() {
        None
    } else if t[i] == '#' && t[i + 1] == '[' {
        Some(i)
    } else {
        marker_from(t, i + 1)
    }
}

/// Scanning from `i` with `depth` brackets open, the index just past the
/// `]` that closes the outermost one. Brackets inside a quoted string, `"`
/// or `'`, are not counted; `quote` is the quote that opened the current
/// string, if any.
pub open spec fn span_close(t: Seq<char>, i: int, depth: nat, quote: Option<char>) -> Option<int>
    decreases t.len() - i,
{
    if i < 0 || i >= t.len() {
        None
    } else if t[i] == '\'' || t[i] == '"' {
        match quote {
            None => span_close(t, i + 1, depth, Some(t[i])),
            Some(q) => if q == t[i] {
                span_close(t, i + 1, depth, None)
            } else {
                span_close(t, i + 1, depth, quote)
            },
        }
    } else if quote is Some {
        span_close(t, i + 1, depth, quote)
    } else if t[i] == '[' {
        span_close(t, i + 1, depth + 1, quote)
    } else if t[i] == ']' {
        if depth <= 1 {
            Some(i + 1)
        } else {
            span_close(t, i + 1, (depth - 1) as nat, quote)
        }
    } else {
        span_close(t, i + 1, depth, quote)
    }
}

pub open spec fn starts_with(s: Seq<char>, prefix: Seq<char>) -> bool {
    prefix.len() <= s.len() && s.subrange(0, prefix.len() as int) == prefix
}

/// Literal text becomes a part unless it is blank.
pub open spec fn add_static(v: ViewModel, s: Seq<char>) -> ViewModel {
    if is_blank(s) {
        v
    } else {
        ViewModel { parts: v.parts.push(PartModel::Static(s)), ..v }
    }
}

/// A code span: before any part, `use x` and `model x` are declarations;
/// anything else becomes a code part.
pub open spec fn add_code(v: ViewModel, code: Seq<char>) -> ViewModel {
    if v.parts.len() == 0 && starts_with(code, "use "@) {
        ViewModel { use_namespaces: v.use_namespaces.push(code.subrange(4, code.len() as int)), ..v }
    } else if v.parts.len() == 0 && starts_with(code, "model "@) {
        ViewModel { model: Some(code.subrange(6, code.len() as int)), ..v }
    } else {
        ViewModel { parts: v.parts.push(PartModel::Code(code)), ..v }
    }
}

/// The view compiled from `t[pos..]` onto `v`, or `None` where a code span
/// is never closed.
pub open spec fn compile_from(t: Seq<char>, pos: int, v: ViewModel) -> Option<ViewModel>
    decreases t.len() - pos,
{
    if pos < 0 || pos > t.len() {
        None
    } else {
        match marker_from(t, pos) {
            None => Some(add_static(v, t.subrange(pos, t.len() as int))),
            Some(m) => match span_close(t, m + 2, 1, None) {
                None => None,
                Some(e) => if pos <= m && m + 2 < e <= t.len() {
                    compile_from(
                        t,
                        e,
                        add_code(add_static(v, t.subrange(pos, m)), t.subrange(m + 2, e - 1)),
                    )
                } else {
                    None
                },
            },
        }
    }
}

pub open spec fn empty_view(name: Seq<char>) -> ViewModel {
    ViewModel { name, model: None, use_namespaces: Seq::empty(), parts: Seq::empty() }
}

/// The view that a template text compiles to.
pub open spec fn compile(name: Seq<char>, t: Seq<char>) -> Option<ViewModel> {
    compile_from(t, 0, empty_view(name))
}

/// Whether `t[from..to]` starts with `prefix`.
fn range_starts_with(t: &Vec<char>, from: usize, to: usize, prefix: &str) -> (r: bool)
    requires
        from <= to <= t.len(),
    ensures
        r == starts_with(t@.subrange(from as int, to as int), prefix@),
{
    let ghost s = t@.subrange(from as int, to as int);
    let n = prefix.unicode_len();
    if n > to - from {
        return false;
    }
    let mut i: usize = 0;
    while i < n
        invariant
            n == prefix@.len(),
            n <= to - from,
            from <= to <= t.len(),
            s == t@.subrange(from as int, to as int),
            i <= n,
            forall|k: int| 0 <= k < i ==> s[k] == prefix@[k],
        decreases n - i,
    {
        if t[from + i] != prefix.get_char(i) {
            assert(s.subrange(0, n as int)[i as int] != prefix@[i as int]);
            return false;
        }
        i = i + 1;
    }
    assert(s.subrange(0, n as int) =~= prefix@);
    true
}

fn push_part(view: &mut View, p: ViewPart)
    ensures
        final(view)@ == (ViewModel { parts: old(view)@.parts.push(p@), ..old(view)@ }),
{
    view.parts.push(p);
    assert(final(view)@.parts =~= old(view)@.parts.push(p@));
}

/// Compiles a view template: literal text and `#[ ... ]` code spans
/// (nested brackets and brackets in quoted strings stay inside), in order,
/// with leading `use` and `model` spans taken as declarations. A code span
/// that is never closed is a file error.
pub fn compile_view(name: String, text: &str) -> (r: Result<View, ParseError>)
    ensures
        match compile(name@, text@) {
            None => r is Err && r->Err_0 is FileError,
            Some(v) => r is Ok && r->Ok_0@ == v,
        },
{
    let t = chars_of(text);
    let n = t.len();
    let mut view = View::new(name);
    assert(view@.use_namespaces =~= Seq::<Seq<char>>::empty());
    assert(view@.parts =~= Seq::<PartModel>::empty());
    assert(view@ == empty_view(name@));
    let mut pos: usize = 0;
    loop
        invariant
            t@ == text@,
            n == t.len(),
            pos <= n,
            compile(name@, text@) == compile_from(t@, pos as int, view@),
        decreases n - pos,
    {
        let mut i: usize = pos;
        while i < n && n - i >= 2 && !(t[i] == '#' && t[i + 1] == '[')
            invariant
                pos <= i <= n,
                n == t.len(),
                marker_from(t@, pos as int) == marker_from(t@, i as int),
            decreases n - i,
        {
            i = i + 1;
        }
        if !(i < n && n - i >= 2) {
            if !is_blank_range(&t, pos, n) {
                push_part(&mut view, ViewPart::Static(string_of_range(&t, pos, n)));
            }
            return Ok(view);
        }
        let m = i;
        let mut j: usize = m + 2;
        let mut depth: usize = 1;
        let mut close: usize = 0;
        let mut quote: Option<char> = None;
        while j < n && close == 0
            invariant
                m + 2 <= j <= n,
                n == t.len(),
                1 <= depth <= j - m,
                close == 0 || (close == j + 1 && j < n && t@[j as int] == ']' && depth <= 1
                    && quote is None),
                span_close(t@, m + 2, 1, None) == span_close(t@, j as int, depth as nat, quote),
            decreases n - j + if close == 0 { 1int } else { 0int },
        {
            let c = t[j];
            if c == '\'' || c == '"' {
                match quote {
                    None => {
                        quote = Some(c);
                    },
                    Some(q) => {
                        if q == c {
                            quote = None;
                        }
                    },
                }
                j = j + 1;
            } else if quote.is_some() {
                j = j + 1;
            } else if c == '[' {
                depth = depth + 1;
                j = j + 1;
            } else if c == ']' {
                if depth <= 1 {
                    close = j + 1;
                } else {
                    depth = depth - 1;
                    j = j + 1;
                }
            } else {
                j = j + 1;
            }
        }
        if close == 0 {
            return Err(ParseError::FileError(String::from_str("a code span is not closed")));
        }
        assert(span_close(t@, m + 2, 1, None) == Some(close as int));
        if !is_blank_range(&t, pos, m) {
            push_part(&mut view, ViewPart::Static(string_of_range(&t, pos, m)));
        }
        let end = close - 1;
        proof {
            reveal_strlit("use ");
            reveal_strlit("model ");
        }
        if view.parts.len() == 0 && range_starts_with(&t, m + 2, end, "use ") {
            let ns = string_of_range(&t, m + 6, end);
            let ghost before = view@;
            assert(ns@ =~= t@.subrange(m + 2, end as int).subrange(4, end - (m + 2)));
            view.use_namespaces.push(ns);
            assert(view@.use_namespaces =~= before.use_namespaces.push(
                t@.subrange(m + 2, end as int).subrange(4, end - (m + 2)),
            ));
        } else if view.parts.len() == 0 && range_starts_with(&t, m + 2, end, "model ") {
            let md = string_of_range(&t, m + 8, end);
            assert(md@ =~= t@.subrange(m + 2, end as int).subrange(6, end - (m + 2)));
            view.model = Some(md);
        } else {
            push_part(&mut view, ViewPart::Code(string_of_range(&t, m + 2, end)));
        }
        pos = close;
    }
}

/// A text without code markers compiles to one static part holding all of
/// it, or to no part when it is blank.
pub proof fn lemma_text_without_markers(name: Seq<char>, t: Seq<char>)
    requires
        marker_from(t, 0) is None,
    ensures
        compile(name, t) == Some(
            ViewModel {
                parts: if is_blank(t) {
                    Seq::<PartModel>::empty()
                } else {
                    seq![PartModel::Static(t)]
                },
                ..empty_view(name)
            },
        ),
{
    assert(t.subrange(0, t.len() as int) =~= t);
    assert(Seq::<PartModel>::empty().push(PartModel::Static(t)) =~= seq![PartModel::Static(t)]);
}

/// Once a code part stands in a view, a span that starts with `model ` or
/// `use ` is one more code part, not a declaration.
pub proof fn lemma_declaration_after_code_is_code(v: ViewModel, code: Seq<char>)
    requires
        exists|i: int| 0 <= i < v.parts.len() && v.parts[i] is Code,
    ensures
        add_code(v, code) == (ViewModel { parts: v.parts.push(PartModel::Code(code)), ..v }),
{
}

/// Once a view holds a part, compiling the rest of the text declares
/// nothing more: the model and the namespaces stay as they are, and the
/// parts so far stay in front, each later span becoming a part of its own.
pub proof fn lemma_no_declaration_after_first_part(t: Seq<char>, pos: int, v: ViewModel)
    requires
        v.parts.len() > 0,
        compile_from(t, pos, v) is Some,
    ensures
        compile_from(t, pos, v)->Some_0.name == v.name,
        compile_from(t, pos, v)->Some_0.model == v.model,
        compile_from(t, pos, v)->Some_0.use_namespaces == v.use_namespaces,
        compile_from(t, pos, v)->Some_0.parts.len() >= v.parts.len(),
        compile_from(t, pos, v)->Some_0.parts.subrange(0, v.parts.len() as int) == v.parts,
    decreases t.len() - pos,
{
    let r = compile_from(t, pos, v)->Some_0;
    match marker_from(t, pos) {
        None => {
            assert(r.parts.subrange(0, v.parts.len() as int) =~= v.parts);
        },
        Some(m) => {
            let e = span_close(t, m + 2, 1, None)->Some_0;
            let v1 = add_static(v, t.subrange(pos, m));
            let v2 = add_code(v1, t.subrange(m + 2, e - 1));
            assert(v2.parts.subrange(0, v.parts.len() as int) =~= v.parts);
            lemma_no_declaration_after_first_part(t, e, v2);
            assert(r.parts.subrange(0, v.parts.len() as int) =~= v2.parts.subrange(
                0,
                v.parts.len() as int,
            ));
        },
    }
}

} // verus!
