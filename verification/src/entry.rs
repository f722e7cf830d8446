use vstd::prelude::*;
use vstd::string::StringExecFns;
use vstd::std_specs::iter::IteratorSpec;

verus! {

/// How an entry's name is rendered on a terminal. The style is display
/// metadata only: it never takes part in entry identity.
#[derive(Clone, Copy, Debug, PartialEq, Eq, Structural)]
pub enum Style {
    /// A basic ANSI colour code (`ESC[<code>m`).
    PlainColored(u32),
    /// A 256-colour palette index (`ESC[38;5;<code>m`).
    IndexedColored(u32),
    /// Each character of the name cycles through the seven basic colours.
    RainbowColored,
}

/// A domain value of a cycle table: a name plus display metadata.
///
/// Identity is the name alone; two entries with equal names and different
/// styles compare equal.
#[derive(Debug)]
pub struct Entry {
    pub name: String,
    pub style: Style,
}

impl Entry {
    pub fn new(name: &str, style: Style) -> (r: Entry)
        ensures
            r.name@ == name@,
            r.style == style,
    {
        Entry { name: String::from_str(name), style }
    }

    /// The name wrapped in the ANSI escapes that this entry's style calls for.
    pub fn colorized_name(&self) -> (r: String)
        ensures
            r@ == styled_name(self.name@, self.style),
    {
        let mut out = String::new();
        match self.style {
            Style::PlainColored(code) => {
                push_color_prefix(&mut out, code);
                out.append(self.name.as_str());
                push_color_suffix(&mut out);
            },
            Style::IndexedColored(code) => {
                push_indexed_prefix(&mut out, code);
                out.append(self.name.as_str());
                push_color_suffix(&mut out);
            },
            Style::RainbowColored => {
                push_rainbow(&mut out, self.name.as_str());
            },
        }
        out
    }
}

impl Clone for Entry {
    fn clone(&self) -> (r: Self)
        ensures
            r == *self,
    {
        Entry { name: self.name.clone(), style: self.style }
    }
}

impl PartialEq for Entry {
    fn eq(&self, other: &Self) -> bool {
        self.name == other.name
    }
}

impl vstd::std_specs::cmp::PartialEqSpecImpl for Entry {
    open spec fn obeys_eq_spec() -> bool {
        true
    }

    open spec fn eq_spec(&self, other: &Self) -> bool {
        self.name@ == other.name@
    }
}

/// The decimal digits of `n`, most significant first.
pub open spec fn dec_digits(n: int) -> Seq<char>
    decreases n,
{
    if n < 10 {
        seq![digit_char(n)]
    } else {
        dec_digits(n / 10).push(digit_char(n % 10))
    }
}

pub open spec fn digit_char(d: int) -> char {
    if d == 0 { '0' }
    else if d == 1 { '1' }
    else if d == 2 { '2' }
    else if d == 3 { '3' }
    else if d == 4 { '4' }
    else if d == 5 { '5' }
    else if d == 6 { '6' }
    else if d == 7 { '7' }
    else if d == 8 { '8' }
    else { '9' }
}

/// `ESC[<code>m`.
pub open spec fn color_prefix(code: int) -> Seq<char> {
    seq!['\u{1b}', '['] + dec_digits(code) + seq!['m']
}

/// `ESC[38;5;<code>m`.
pub open spec fn indexed_prefix(code: int) -> Seq<char> {
    seq!['\u{1b}', '[', '3', '8', ';', '5', ';'] + dec_digits(code) + seq!['m']
}

/// `ESC[0m`.
pub open spec fn color_suffix() -> Seq<char> {
    seq!['\u{1b}', '[', '0', 'm']
}

/// Character `i` of a rainbow-styled name carries colour `(i + 6) % 7 + 31`.
pub open spec fn rainbow_name(name: Seq<char>) -> Seq<char>
    decreases name.len(),
{
    if name.len() == 0 {
        Seq::empty()
    } else {
        rainbow_name(name.drop_last()) + color_prefix((name.len() - 1 + 6) % 7 + 31)
            + seq![name.last()] + color_suffix()
    }
}

/// The full rendering of a name under a style.
pub open spec fn styled_name(name: Seq<char>, style: Style) -> Seq<char> {
    match style {
        Style::PlainColored(code) => color_prefix(code as int) + name + color_suffix(),
        Style::IndexedColored(code) => indexed_prefix(code as int) + name + color_suffix(),
        Style::RainbowColored => rainbow_name(name),
    }
}

/// Relies on `String::push`: appends the given character to the end of the
/// string.
#[verifier::external_body]
fn push_char(s: &mut String, c: char)
    ensures
        final(s)@ == old(s)@.push(c),
{
    s.push(c);
}

fn push_digit(out: &mut String, d: u32)
    requires
        d < 10,
    ensures
        final(out)@ == old(out)@.push(digit_char(d as int)),
{
    let c: char = match d {
        0 => '0',
        1 => '1',
        2 => '2',
        3 => '3',
        4 => '4',
        5 => '5',
        6 => '6',
        7 => '7',
        8 => '8',
        _ => '9',
    };
    push_char(out, c);
}

fn push_digits(out: &mut String, n: u32)
    ensures
        final(out)@ == old(out)@ + dec_digits(n as int),
    decreases n,
{
    if n >= 10 {
        push_digits(out, n / 10);
    }
    push_digit(out, n % 10);
    proof {
        if n < 10 {
            assert(final(out)@ =~= old(out)@ + dec_digits(n as int));
        } else {
            assert(final(out)@ =~= old(out)@ + dec_digits(n as int));
        }
    }
}

fn push_color_prefix(out: &mut String, code: u32)
    ensures
        final(out)@ == old(out)@ + color_prefix(code as int),
{
    push_char(out, '\u{1b}');
    push_char(out, '[');
    push_digits(out, code);
    push_char(out, 'm');
    proof {
        assert(final(out)@ =~= old(out)@ + color_prefix(code as int));
    }
}

fn push_indexed_prefix(out: &mut String, code: u32)
    ensures
        final(out)@ == old(out)@ + indexed_prefix(code as int),
{
    push_char(out, '\u{1b}');
    push_char(out, '[');
    push_char(out, '3');
    push_char(out, '8');
    push_char(out, ';');
    push_char(out, '5');
    push_char(out, ';');
    push_digits(out, code);
    push_char(out, 'm');
    proof {
        assert(final(out)@ =~= old(out)@ + indexed_prefix(code as int));
    }
}

fn push_color_suffix(out: &mut String)
    ensures
        final(out)@ == old(out)@ + color_suffix(),
{
    push_char(out, '\u{1b}');
    push_char(out, '[');
    push_char(out, '0');
    push_char(out, 'm');
    proof {
        assert(final(out)@ =~= old(out)@ + color_suffix());
    }
}

fn push_rainbow(out: &mut String, name: &str)
    ensures
        final(out)@ == old(out)@ + rainbow_name(name@),
{
    let ghost orig: Seq<char> = out@;
    let mut it = name.chars();
    // The character position reduced modulo 7, so that the colour index
    // stays within machine range whatever the name's length.
    let mut pos_mod: u32 = 0;
    let ghost mut done: int = 0;
    loop
        invariant
            0 <= done <= name@.len(),
            it.obeys_prophetic_iter_laws(),
            it.remaining() =~= name@.skip(done),
            pos_mod == done % 7,
            out@ == orig + rainbow_name(name@.take(done)),
        ensures
            out@ == orig + rainbow_name(name@),
        decreases name@.len() - done,
    {
        let next = it.next();
        match next {
            None => {
                proof {
                    assert(name@.skip(done).len() == 0);
                    assert(name@.take(done) =~= name@);
                }
                break;
            },
            Some(c) => {
                proof {
                    assert(name@.skip(done)[0] == name@[done]);
                }
                let color: u32 = (pos_mod + 6) % 7 + 31;
                proof {
                    vstd::arithmetic::div_mod::lemma_mod_bound(done, 7);
                    vstd::arithmetic::div_mod::lemma_add_mod_noop(done, 6, 7);
                    vstd::arithmetic::div_mod::lemma_small_mod(6nat, 7nat);
                    vstd::arithmetic::div_mod::lemma_mod_bound(done % 7 + 6, 7);
                    assert((pos_mod + 6) % 7 == ((done % 7) + 6) % 7);
                    assert(color == (done + 6) % 7 + 31);
                }
                push_color_prefix(out, color);
                push_char(out, c);
                push_color_suffix(out);
                proof {
                    let taken = name@.take(done + 1);
                    assert(taken.drop_last() =~= name@.take(done));
                    assert(taken.last() == name@[done]);
                    assert(out@ =~= orig + rainbow_name(name@.take(done + 1)));
                    vstd::arithmetic::div_mod::lemma_add_mod_noop(done, 1, 7);
                    vstd::arithmetic::div_mod::lemma_small_mod(1nat, 7nat);
                    vstd::arithmetic::div_mod::lemma_mod_self_0(7);
                    if done % 7 < 6 {
                        vstd::arithmetic::div_mod::lemma_small_mod((done % 7 + 1) as nat, 7nat);
                    }
                    done = done + 1;
                }
                pos_mod = if pos_mod == 6 { 0 } else { pos_mod + 1 };
            },
        }
    }
}

} // verus!
