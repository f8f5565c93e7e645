//! Text utilities shared by all emitters: indentation, line assembly,
//! comma-joining, decimal rendering and string escaping.

use vstd::prelude::*;
use vstd::string::StrSliceExecFns;
use vstd::string::StringExecFns;

verus! {

/// Relies on alloc's `String::push`: appends exactly the given character.
pub assume_specification[ String::push ](s: &mut String, ch: char)
    ensures
        final(s)@ == old(s)@.push(ch),
;

/// One line of output: the given text followed by a newline.
pub open spec fn line(s: Seq<char>) -> Seq<char> {
    s + "\n"@
}

/// An optional line: rendered when the text is present, empty otherwise.
pub open spec fn opt_line(s: Option<Seq<char>>) -> Seq<char> {
    match s {
        Some(t) => line(t),
        None => Seq::empty(),
    }
}

/// Appends one line to the sink: the given text followed by a newline.
pub fn push_line(w: &mut String, s: &str)
    ensures
        final(w)@ == old(w)@ + line(s@),
{
    w.append(s);
    w.append("\n");
    proof {
        assert(w@ =~= old(w)@ + line(s@));
    }
}

/// Appends an empty line to the sink.
pub fn push_blank_line(w: &mut String)
    ensures
        final(w)@ == old(w)@ + line(Seq::empty()),
{
    w.append("\n");
    proof {
        assert(w@ =~= old(w)@ + line(Seq::empty()));
    }
}

/// Indentation for the given nesting depth: one tab per level.
pub open spec fn tabs_text(n: nat) -> Seq<char> {
    Seq::new(n, |i: int| '\t')
}

/// Indentation for the given nesting depth: one tab per level.
pub fn tabs(num: usize) -> (r: String)
    ensures
        r@ == tabs_text(num as nat),
{
    let mut r = String::new();
    proof {
        assert(r@ =~= tabs_text(0));
    }
    let mut i: usize = 0;
    while i < num
        invariant
            i <= num,
            r@ == tabs_text(i as nat),
        decreases num - i,
    {
        r.push('\t');
        i = i + 1;
        proof {
            assert(r@ =~= tabs_text(i as nat));
        }
    }
    r
}

/// How one character is escaped: a quote or a backslash gains a leading
/// backslash, anything else passes through unchanged.
pub open spec fn escape_char(c: char) -> Seq<char> {
    if c == '"' || c == '\\' {
        seq!['\\', c]
    } else {
        seq![c]
    }
}

/// The escaped form of a whole string: each character's escaped form,
/// concatenated in order.
pub open spec fn escaped(s: Seq<char>) -> Seq<char>
    decreases s.len(),
{
    if s.len() == 0 {
        Seq::empty()
    } else {
        escaped(s.drop_last()) + escape_char(s.last())
    }
}

/// Escapes text in a format suitable for placing inside double quotes:
/// every `"` and `\` is prefixed with a backslash.
pub fn escape_string(s: &str) -> (r: String)
    ensures
        r@ == escaped(s@),
{
    let n = s.unicode_len();
    let mut r = String::new();
    proof {
        assert(s@.take(0) =~= Seq::<char>::empty());
        assert(r@ =~= escaped(s@.take(0)));
    }
    let mut i: usize = 0;
    while i < n
        invariant
            i <= n,
            n == s@.len(),
            r@ == escaped(s@.take(i as int)),
        decreases n - i,
    {
        let c = s.get_char(i);
        if c == '"' || c == '\\' {
            r.push('\\');
        }
        r.push(c);
        proof {
            assert(s@.take(i + 1).drop_last() =~= s@.take(i as int));
            assert(s@.take(i + 1).last() == s@[i as int]);
            assert(r@ =~= escaped(s@.take(i + 1)));
        }
        i = i + 1;
    }
    proof {
        assert(s@.take(n as int) =~= s@);
    }
    r
}

/// A string is well escaped when every backslash in it starts a
/// two-character sequence `\"` or `\\`, and no quote stands outside
/// such a sequence.
pub open spec fn well_escaped(t: Seq<char>) -> bool
    decreases t.len(),
{
    if t.len() == 0 {
        true
    } else if t[0] == '\\' {
        t.len() >= 2 && (t[1] == '"' || t[1] == '\\') && well_escaped(t.skip(2))
    } else {
        t[0] != '"' && well_escaped(t.skip(1))
    }
}

proof fn lemma_well_escaped_append(a: Seq<char>, c: char)
    requires
        well_escaped(a),
    ensures
        well_escaped(a + escape_char(c)),
    decreases a.len(),
{
    let u = escape_char(c);
    let t = a + u;
    assert(well_escaped(Seq::<char>::empty()));
    if a.len() == 0 {
        if c == '"' || c == '\\' {
            assert(u.skip(2) =~= Seq::<char>::empty());
            assert(u.len() == 2 && u[0] == '\\' && u[1] == c);
        } else {
            assert(u.skip(1) =~= Seq::<char>::empty());
            assert(u[0] == c && u[0] != '\\' && u[0] != '"');
        }
        assert(well_escaped(u));
        assert(t =~= u);
    } else if a[0] == '\\' {
        assert(a.len() >= 2 && (a[1] == '"' || a[1] == '\\') && well_escaped(a.skip(2)));
        lemma_well_escaped_append(a.skip(2), c);
        assert(t.skip(2) =~= a.skip(2) + u);
        assert(t[0] == '\\' && t.len() >= 2 && t[1] == a[1]);
        assert(well_escaped(t));
    } else {
        assert(a[0] != '"' && well_escaped(a.skip(1)));
        lemma_well_escaped_append(a.skip(1), c);
        assert(t.skip(1) =~= a.skip(1) + u);
        assert(t[0] == a[0]);
        assert(well_escaped(t));
    }
}

/// Law: escaping leaves no raw quote and no stray backslash — in the escaped
/// text every backslash starts a two-character sequence `\"` or `\\`, and
/// every quote stands inside one — and the empty string escapes to the
/// empty string.
pub proof fn lemma_escaped_well_formed(s: Seq<char>)
    ensures
        well_escaped(escaped(s)),
        s.len() == 0 ==> escaped(s) == Seq::<char>::empty(),
    decreases s.len(),
{
    if s.len() > 0 {
        lemma_escaped_well_formed(s.drop_last());
        lemma_well_escaped_append(escaped(s.drop_last()), s.last());
    }
}

/// The given items joined by the given separator, in order.
pub open spec fn join_text(items: Seq<Seq<char>>, sep: Seq<char>) -> Seq<char>
    decreases items.len(),
{
    if items.len() == 0 {
        Seq::empty()
    } else if items.len() == 1 {
        items[0]
    } else {
        join_text(items.drop_last(), sep) + sep + items.last()
    }
}

/// Joins the given strings with the given separator, in order.
pub fn join_strings(items: &Vec<String>, sep: &str) -> (r: String)
    ensures
        r@ == join_text(items.deep_view(), sep@),
{
    let ghost dv = items.deep_view();
    let mut r = String::new();
    proof {
        assert(r@ =~= join_text(dv.take(0), sep@));
    }
    let mut i: usize = 0;
    while i < items.len()
        invariant
            i <= items.len(),
            dv == items.deep_view(),
            dv.len() == items@.len(),
            r@ == join_text(dv.take(i as int), sep@),
        decreases items.len() - i,
    {
        if i > 0 {
            r.append(sep);
        }
        let it: &String = &items[i];
        r.append(it.as_str());
        proof {
            assert(dv[i as int] == items@[i as int]@);
            assert(dv.take(i + 1).drop_last() =~= dv.take(i as int));
            assert(dv.take(i + 1).last() == dv[i as int]);
            assert(r@ =~= join_text(dv.take(i + 1), sep@));
        }
        i = i + 1;
    }
    proof {
        assert(dv.take(items@.len() as int) =~= dv);
    }
    r
}

/// The decimal digits of a number, most significant first.
pub open spec fn dec_digits(n: nat) -> Seq<char>
    decreases n,
{
    if n < 10 {
        seq![digit_char(n)]
    } else {
        dec_digits(n / 10) + seq![digit_char(n % 10)]
    }
}

/// The character for one decimal digit.
pub open spec fn digit_char(d: nat) -> char {
    if d == 0 {
        '0'
    } else if d == 1 {
        '1'
    } else if d == 2 {
        '2'
    } else if d == 3 {
        '3'
    } else if d == 4 {
        '4'
    } else if d == 5 {
        '5'
    } else if d == 6 {
        '6'
    } else if d == 7 {
        '7'
    } else if d == 8 {
        '8'
    } else {
        '9'
    }
}

fn digit_char_exec(d: u16) -> (c: char)
    requires
        d < 10,
    ensures
        c == digit_char(d as nat),
{
    if d == 0 {
        '0'
    } else if d == 1 {
        '1'
    } else if d == 2 {
        '2'
    } else if d == 3 {
        '3'
    } else if d == 4 {
        '4'
    } else if d == 5 {
        '5'
    } else if d == 6 {
        '6'
    } else if d == 7 {
        '7'
    } else if d == 8 {
        '8'
    } else {
        '9'
    }
}

/// Appends the decimal rendering of a number to the sink.
pub fn push_dec(w: &mut String, n: u16)
    ensures
        final(w)@ == old(w)@ + dec_digits(n as nat),
    decreases n,
{
    if n >= 10 {
        push_dec(w, n / 10);
    }
    w.push(digit_char_exec(n % 10));
    proof {
        assert(w@ =~= old(w)@ + dec_digits(n as nat));
    }
}

/// The view of an optional string.
pub open spec fn opt_text(r: Option<String>) -> Option<Seq<char>> {
    match r {
        Some(s) => Some(s@),
        None => None,
    }
}

/// The needle occurs somewhere inside the haystack.
pub open spec fn contains_text(hay: Seq<char>, needle: Seq<char>) -> bool {
    exists|k: int|
        0 <= k && k + needle.len() <= hay.len() && #[trigger] hay.subrange(k, k + needle.len())
            == needle
}

} // verus!
