//! Text building blocks for failure messages.
//!
//! Messages are built from three primitives, each with an exact
//! character-level specification: appending one character, writing an
//! integer in decimal, and substituting arguments into a message template
//! at each `{}` placeholder, left to right.

use vstd::prelude::*;
use vstd::string::StringExecFns;

verus! {

/// Relies on `String::push`: appends the given character to the end of the
/// string.
#[verifier::external_body]
pub(crate) fn push_char(s: &mut String, c: char)
    ensures
        final(s)@ == old(s)@.push(c),
{
    s.push(c);
}

/// The decimal digit character for a value between 0 and 9.
pub open spec fn digit_char(d: int) -> char {
    if d == 0 { '0' }
    else if d == 1 { '1' }
    else if d == 2 { '2' }
    else if d == 3 { '3' }
    else if d == 4 { '4' }
    else if d == 5 { '5' }
    else if d == 6 { '6' }
    else if d == 7 { '7' }
    else if d == 8 { '8' }
    else { '9' }
}

/// The decimal digits of a non-negative integer, most significant first.
pub open spec fn dec_digits(n: nat) -> Seq<char>
    decreases n,
{
    if n < 10 {
        seq![digit_char(n as int)]
    } else {
        dec_digits(n / 10) + seq![digit_char((n % 10) as int)]
    }
}

/// The decimal rendering of an integer: a minus sign for negative values,
/// then the digits of the magnitude.
pub open spec fn dec_int(n: int) -> Seq<char> {
    if n < 0 {
        seq!['-'] + dec_digits((-n) as nat)
    } else {
        dec_digits(n as nat)
    }
}

fn digit_of(d: u64) -> (c: char)
    requires
        d < 10,
    ensures
        c == digit_char(d as int),
{
    if d == 0 { '0' }
    else if d == 1 { '1' }
    else if d == 2 { '2' }
    else if d == 3 { '3' }
    else if d == 4 { '4' }
    else if d == 5 { '5' }
    else if d == 6 { '6' }
    else if d == 7 { '7' }
    else if d == 8 { '8' }
    else { '9' }
}

/// Appends the decimal digits of `n` to `s`.
pub fn push_u64(s: &mut String, n: u64)
    ensures
        final(s)@ == old(s)@ + dec_digits(n as nat),
    decreases n,
{
    if n < 10 {
        push_char(s, digit_of(n));
        assert(final(s)@ =~= old(s)@ + dec_digits(n as nat));
    } else {
        push_u64(s, n / 10);
        push_char(s, digit_of(n % 10));
        assert(final(s)@ =~= old(s)@ + dec_digits(n as nat));
    }
}

/// Appends the decimal rendering of `n` to `s`.
pub fn push_i64(s: &mut String, n: i64)
    ensures
        final(s)@ == old(s)@ + dec_int(n as int),
{
    if n < 0 {
        push_char(s, '-');
        let m: u64 = (-(n as i128)) as u64;
        assert(m as nat == (-(n as int)) as nat);
        push_u64(s, m);
        assert(final(s)@ =~= old(s)@ + dec_int(n as int));
    } else {
        push_u64(s, n as u64);
    }
}

/// The decimal rendering of `n` as a fresh string.
pub fn format_i64(n: i64) -> (r: String)
    ensures
        r@ == dec_int(n as int),
{
    let mut s = String::new();
    push_i64(&mut s, n);
    assert(s@ =~= dec_int(n as int));
    s
}

/// Substitution of arguments into a template, left to right.
///
/// Each `{}` pair consumes the next argument; every other character is kept
/// as it is. Placeholders beyond the last argument are kept literally.
pub open spec fn render_spec(tmpl: Seq<char>, args: Seq<Seq<char>>) -> Seq<char>
    decreases tmpl.len(),
{
    if tmpl.len() == 0 {
        Seq::empty()
    } else if tmpl.len() >= 2 && tmpl[0] == '{' && tmpl[1] == '}' && args.len() > 0 {
        args[0] + render_spec(tmpl.skip(2), args.drop_first())
    } else {
        seq![tmpl[0]] + render_spec(tmpl.drop_first(), args)
    }
}

fn render_into(out: &mut String, tmpl: &Vec<char>, ti: usize, args: &Vec<String>, ai: usize)
    requires
        ti <= tmpl@.len(),
        ai <= args@.len(),
    ensures
        final(out)@ == old(out)@ + render_spec(tmpl@.skip(ti as int), args.deep_view().skip(ai as int)),
    decreases tmpl@.len() - ti,
{
    let ghost t = tmpl@.skip(ti as int);
    let ghost a = args.deep_view().skip(ai as int);
    if ti == tmpl.len() {
        assert(final(out)@ =~= old(out)@ + render_spec(t, a));
        return;
    }
    assert(t[0] == tmpl@[ti as int]);
    if ti + 1 < tmpl.len() && tmpl[ti] == '{' && tmpl[ti + 1] == '}' && ai < args.len() {
        assert(t[1] == tmpl@[ti + 1]);
        assert(a[0] == args.deep_view()[ai as int]);
        out.append(args[ai].as_str());
        render_into(out, tmpl, ti + 2, args, ai + 1);
        assert(t.skip(2) =~= tmpl@.skip(ti + 2));
        assert(a.drop_first() =~= args.deep_view().skip(ai + 1));
        assert(final(out)@ =~= old(out)@ + render_spec(t, a));
    } else {
        push_char(out, tmpl[ti]);
        render_into(out, tmpl, ti + 1, args, ai);
        assert(t.drop_first() =~= tmpl@.skip(ti + 1));
        assert(final(out)@ =~= old(out)@ + render_spec(t, a));
    }
}

/// Renders a template against its argument strings.
pub fn render(tmpl: &Vec<char>, args: &Vec<String>) -> (r: String)
    ensures
        r@ == render_spec(tmpl@, args.deep_view()),
{
    let mut out = String::new();
    render_into(&mut out, tmpl, 0, args, 0);
    assert(tmpl@.skip(0) =~= tmpl@);
    assert(args.deep_view().skip(0) =~= args.deep_view());
    assert(out@ =~= render_spec(tmpl@, args.deep_view()));
    out
}

/// The characters of a string slice, as a vector.
pub fn chars_of(s: &str) -> (r: Vec<char>)
    ensures
        r@ == s@,
{
    let mut r: Vec<char> = Vec::new();
    for c in it: s.chars()
        invariant
            it.seq() == s@,
            r@ == it.seq().take(it.index() as int),
    {
        r.push(c);
    }
    assert(r@ =~= s@);
    r
}

} // verus!
