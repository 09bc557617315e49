//! Generation of the shader-source preamble.
//!
//! A material's shader permutation is selected purely textually: for every
//! texture-backed property slot one `#define <NAME>_TEXTURE_BINDING <n>`
//! line is prepended to the fragment shader, where `n` is the binding
//! index the texture was given in the bind-group layout.  The functions
//! here render those lines exactly, so the binding indices named in the
//! shader text can be proved to match the generated layout.

use vstd::prelude::*;

verus! {

/// The character of one decimal digit value.
pub open spec fn decimal_digit_char(d: int) -> char {
    if d == 0 {
        '0'
    } else if d == 1 {
        '1'
    } else if d == 2 {
        '2'
    } else if d == 3 {
        '3'
    } else if d == 4 {
        '4'
    } else if d == 5 {
        '5'
    } else if d == 6 {
        '6'
    } else if d == 7 {
        '7'
    } else if d == 8 {
        '8'
    } else {
        '9'
    }
}

/// The decimal representation of `n`, most significant digit first and
/// without leading zeros (except for `n == 0` itself).
pub open spec fn decimal_rep(n: nat) -> Seq<char>
    decreases n,
{
    if n < 10 {
        seq![decimal_digit_char(n as int)]
    } else {
        decimal_rep(n / 10).push(decimal_digit_char((n % 10) as int))
    }
}

/// The one-character string for a single decimal digit.
fn digit_str(d: u32) -> (r: &'static str)
    requires
        d < 10,
    ensures
        r@ == seq![decimal_digit_char(d as int)],
{
    proof {
        reveal_strlit("0");
        reveal_strlit("1");
        reveal_strlit("2");
        reveal_strlit("3");
        reveal_strlit("4");
        reveal_strlit("5");
        reveal_strlit("6");
        reveal_strlit("7");
        reveal_strlit("8");
        reveal_strlit("9");
    }
    if d == 0 {
        "0"
    } else if d == 1 {
        "1"
    } else if d == 2 {
        "2"
    } else if d == 3 {
        "3"
    } else if d == 4 {
        "4"
    } else if d == 5 {
        "5"
    } else if d == 6 {
        "6"
    } else if d == 7 {
        "7"
    } else if d == 8 {
        "8"
    } else {
        "9"
    }
}

/// Renders `n` in decimal.
pub fn decimal_string(n: u32) -> (r: String)
    ensures
        r@ == decimal_rep(n as nat),
    decreases n,
{
    if n < 10 {
        let d = digit_str(n);
        String::from_str(d)
    } else {
        let mut prefix = decimal_string(n / 10);
        let last = digit_str(n % 10);
        prefix.append(last);
        proof {
            assert(prefix@ == decimal_rep(n as nat));
        }
        prefix
    }
}

/// The text of the preprocessor line that binds the texture of the slot
/// called `name` to binding index `binding`.
pub open spec fn define_line(name: Seq<char>, binding: nat) -> Seq<char> {
    "#define "@ + name + "_TEXTURE_BINDING "@ + decimal_rep(binding) + "\n"@
}

/// Renders the `#define` line for one texture-backed slot.
pub fn render_define_line(name: &str, binding: u32) -> (r: String)
    ensures
        r@ == define_line(name@, binding as nat),
{
    let mut s = String::from_str("#define ");
    s.append(name);
    s.append("_TEXTURE_BINDING ");
    let digits = decimal_string(binding);
    s.append(digits.as_str());
    s.append("\n");
    proof {
        assert(s@ == define_line(name@, binding as nat));
    }
    s
}

/// The full fragment-shader source: the fixed version pragma, then the
/// generated defines, then the shader body.
pub open spec fn fragment_source(defines: Seq<char>, body: Seq<char>) -> Seq<char> {
    "#version 450\n\n"@ + defines + "\n"@ + body
}

/// Composes the final fragment-shader source handed to the shader
/// compiler from the generated define preamble and the shader body.
pub fn compose_fragment_source(defines: &str, body: &str) -> (r: String)
    ensures
        r@ == fragment_source(defines@, body@),
{
    let mut s = String::from_str("#version 450\n\n");
    s.append(defines);
    s.append("\n");
    s.append(body);
    proof {
        assert(s@ == fragment_source(defines@, body@));
    }
    s
}

} // verus!
