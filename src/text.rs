use vstd::prelude::*;

use crate::color::{percentage_tenths_spec, Color};

verus! {

/// The ASCII digit or uppercase letter for a value below sixteen.
pub open spec fn digit_char(d: nat) -> char {
    if d < 10 {
        ((48 + d) as u8) as char
    } else {
        ((55 + d) as u8) as char
    }
}

/// The decimal spelling of `n`, without leading zeros.
pub open spec fn decimal(n: nat) -> Seq<char>
    decreases n,
{
    if n < 10 {
        seq![digit_char(n)]
    } else {
        decimal(n / 10).push(digit_char(n % 10))
    }
}

/// The two uppercase hexadecimal digits of a byte.
pub open spec fn hex_byte(b: u8) -> Seq<char> {
    seq![digit_char(b as nat / 16), digit_char(b as nat % 16)]
}

fn digit(d: u8) -> (c: char)
    requires
        d < 16,
    ensures
        c == digit_char(d as nat),
{
    if d < 10 {
        (48u8 + d) as char
    } else {
        (55u8 + d) as char
    }
}

/// Appends the decimal spelling of `n`.
pub fn push_decimal(out: &mut Vec<char>, n: u128)
    ensures
        final(out)@ == old(out)@ + decimal(n as nat),
    decreases n,
{
    if n >= 10 {
        push_decimal(out, n / 10);
    }
    out.push(digit((n % 10) as u8));
    proof {
        if n < 10 {
            assert(decimal(n as nat) =~= seq![digit_char(n as nat)]);
        }
    }
    assert(final(out)@ =~= old(out)@ + decimal(n as nat));
}

/// Appends the two uppercase hexadecimal digits of `b`.
pub fn push_hex_byte(out: &mut Vec<char>, b: u8)
    ensures
        final(out)@ == old(out)@ + hex_byte(b),
{
    out.push(digit(b / 16));
    out.push(digit(b % 16));
    assert(final(out)@ =~= old(out)@ + hex_byte(b));
}

/// Relies on `FromIterator<char>` for `String`: the string holds the characters in order.
#[verifier::external_body]
pub(crate) fn chars_to_string(v: &Vec<char>) -> (r: String)
    ensures
        r@ == v@,
{
    v.iter().collect()
}

/// `#RRGGBB`: a hash sign and the uppercase hexadecimal digits of the three channels.
pub open spec fn hex_code(r: u8, g: u8, b: u8) -> Seq<char> {
    seq!['#'] + hex_byte(r) + hex_byte(g) + hex_byte(b)
}

/// `Color: #RRGGBB (RGB: r, g, b) - p.p%`, the percentage given to one decimal.
pub open spec fn color_line(c: Color) -> Seq<char> {
    let t = percentage_tenths_spec(c.count as nat, c.total as nat);
    seq!['C', 'o', 'l', 'o', 'r', ':', ' '] + hex_code(c.r, c.g, c.b) + seq![
        ' ',
        '(',
        'R',
        'G',
        'B',
        ':',
        ' ',
    ] + decimal(c.r as nat) + seq![',', ' '] + decimal(c.g as nat) + seq![',', ' '] + decimal(
        c.b as nat,
    ) + seq![')', ' ', '-', ' '] + decimal(t / 10) + seq!['.'] + decimal(t % 10) + seq!['%']
}

/// The lines of all colors, in order, separated by newlines.
pub open spec fn colors_text(colors: Seq<Color>) -> Seq<char>
    decreases colors.len(),
{
    if colors.len() == 0 {
        Seq::empty()
    } else if colors.len() == 1 {
        color_line(colors[0])
    } else {
        colors_text(colors.drop_last()) + seq!['\n'] + color_line(colors.last())
    }
}

fn push_hex_code(out: &mut Vec<char>, r: u8, g: u8, b: u8)
    ensures
        final(out)@ == old(out)@ + hex_code(r, g, b),
{
    out.push('#');
    push_hex_byte(out, r);
    push_hex_byte(out, g);
    push_hex_byte(out, b);
    assert(final(out)@ =~= old(out)@ + hex_code(r, g, b));
}

/// The `#RRGGBB` code of a color.
pub fn hex_string(r: u8, g: u8, b: u8) -> (s: String)
    ensures
        s@ == hex_code(r, g, b),
{
    let mut out: Vec<char> = Vec::new();
    push_hex_code(&mut out, r, g, b);
    assert(out@ =~= hex_code(r, g, b));
    chars_to_string(&out)
}

fn push_separator(out: &mut Vec<char>)
    ensures
        final(out)@ == old(out)@ + seq![',', ' '],
{
    out.push(',');
    out.push(' ');
    assert(final(out)@ =~= old(out)@ + seq![',', ' ']);
}

fn push_color_line(out: &mut Vec<char>, c: &Color)
    ensures
        final(out)@ == old(out)@ + color_line(*c),
{
    let ghost start = out@;
    out.push('C');
    out.push('o');
    out.push('l');
    out.push('o');
    out.push('r');
    out.push(':');
    out.push(' ');
    push_hex_code(out, c.r, c.g, c.b);
    out.push(' ');
    out.push('(');
    out.push('R');
    out.push('G');
    out.push('B');
    out.push(':');
    out.push(' ');
    push_decimal(out, c.r as u128);
    push_separator(out);
    push_decimal(out, c.g as u128);
    push_separator(out);
    push_decimal(out, c.b as u128);
    out.push(')');
    out.push(' ');
    out.push('-');
    out.push(' ');
    let t = c.percentage_tenths();
    push_decimal(out, t / 10);
    out.push('.');
    push_decimal(out, t % 10);
    out.push('%');
    assert(out@ =~= start + color_line(*c));
}

/// The colors as text, one `Color: #RRGGBB (RGB: r, g, b) - p.p%` line each,
/// separated by newlines.
pub fn format_colors_text(colors: &Vec<Color>) -> (s: String)
    ensures
        s@ == colors_text(colors@),
{
    let mut out: Vec<char> = Vec::new();
    let mut i: usize = 0;
    while i < colors.len()
        invariant
            i <= colors@.len(),
            out@ == colors_text(colors@.take(i as int)),
        decreases colors@.len() - i,
    {
        assert(colors@.take(i as int + 1).drop_last() =~= colors@.take(i as int));
        if i > 0 {
            out.push('\n');
        } else {
            assert(out@ =~= Seq::<char>::empty());
        }
        push_color_line(&mut out, &colors[i]);
        i = i + 1;
        assert(out@ =~= colors_text(colors@.take(i as int)));
    }
    assert(colors@.take(colors@.len() as int) =~= colors@);
    chars_to_string(&out)
}

} // verus!
