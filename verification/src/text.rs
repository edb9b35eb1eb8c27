//! Small text utilities shared by the code emitters: case conversion
//! (through an outside crate), bracket escaping for documentation,
//! decimal rendering, indentation and the reserved-word table.

use vstd::prelude::*;
use vstd::string::*;

verus! {

// ------------------------------------------------------------------
// Case conversion (outside crate).
// ------------------------------------------------------------------

/// What heck's snake-case conversion returns for a given string.
pub uninterp spec fn snek_of(s: Seq<char>) -> Seq<char>;

/// What heck's camel-case conversion returns for a given string.
pub uninterp spec fn camel_of(s: Seq<char>) -> Seq<char>;

/// Relies on heck's `SnekCase::to_snek_case` for `str`: the result is a
/// function of the input characters alone.
#[verifier::external_body]
pub(crate) fn to_snek_case(s: &str) -> (r: String)
    ensures
        r@ == snek_of(s@),
{
    heck::SnekCase::to_snek_case(s)
}

/// Relies on heck's `CamelCase::to_camel_case` for `str`: the result is a
/// function of the input characters alone.
#[verifier::external_body]
pub(crate) fn to_camel_case(s: &str) -> (r: String)
    ensures
        r@ == camel_of(s@),
{
    heck::CamelCase::to_camel_case(s)
}

// ------------------------------------------------------------------
// Documentation escaping (outside crate).
// ------------------------------------------------------------------

/// The given text with every `[` and `]` prefixed by a backslash.
pub open spec fn spec_escape_brackets(s: Seq<char>) -> Seq<char>
    decreases s.len(),
{
    if s.len() == 0 {
        s
    } else {
        (if s[0] == '[' {
            seq!['\\', '[']
        } else if s[0] == ']' {
            seq!['\\', ']']
        } else {
            seq![s[0]]
        }) + spec_escape_brackets(s.drop_first())
    }
}

/// Relies on `regex::Regex::new` with the pattern `[\[\]]` and
/// `Regex::replace_all` with the literal replacement `\$0`: every square
/// bracket, and nothing else, is a match, and each match is replaced by a
/// backslash followed by the matched bracket.
#[verifier::external_body]
pub(crate) fn escape_brackets(line: &str) -> (r: String)
    ensures
        r@ == spec_escape_brackets(line@),
{
    let re = regex::Regex::new(r"[\[\]]").expect("bracket pattern");
    re.replace_all(line, r"\$0").into_owned()
}

// ------------------------------------------------------------------
// String equality.
// ------------------------------------------------------------------

pub fn str_eq(a: &str, b: &str) -> (r: bool)
    ensures
        r == (a@ == b@),
{
    let sa = a.to_owned();
    let sb = b.to_owned();
    sa == sb
}

// ------------------------------------------------------------------
// Decimal rendering.
// ------------------------------------------------------------------

/// The character for one decimal digit.
pub open spec fn spec_digit(d: int) -> char {
    if d == 0 { '0' }
    else if d == 1 { '1' }
    else if d == 2 { '2' }
    else if d == 3 { '3' }
    else if d == 4 { '4' }
    else if d == 5 { '5' }
    else if d == 6 { '6' }
    else if d == 7 { '7' }
    else if d == 8 { '8' }
    else { '9' }
}

/// The usual decimal rendering of a number, most significant digit first.
pub open spec fn spec_decimal(n: nat) -> Seq<char>
    decreases n,
{
    if n < 10 {
        seq![spec_digit(n as int)]
    } else {
        spec_decimal(n / 10) + seq![spec_digit((n % 10) as int)]
    }
}

fn digit_str(d: u64) -> (r: &'static str)
    requires
        d < 10,
    ensures
        r@ == seq![spec_digit(d as int)],
{
    if d == 0 {
        proof { reveal_strlit("0"); }
        assert("0"@ =~= seq![spec_digit(0)]);
        "0"
    } else if d == 1 {
        proof { reveal_strlit("1"); }
        assert("1"@ =~= seq![spec_digit(1)]);
        "1"
    } else if d == 2 {
        proof { reveal_strlit("2"); }
        assert("2"@ =~= seq![spec_digit(2)]);
        "2"
    } else if d == 3 {
        proof { reveal_strlit("3"); }
        assert("3"@ =~= seq![spec_digit(3)]);
        "3"
    } else if d == 4 {
        proof { reveal_strlit("4"); }
        assert("4"@ =~= seq![spec_digit(4)]);
        "4"
    } else if d == 5 {
        proof { reveal_strlit("5"); }
        assert("5"@ =~= seq![spec_digit(5)]);
        "5"
    } else if d == 6 {
        proof { reveal_strlit("6"); }
        assert("6"@ =~= seq![spec_digit(6)]);
        "6"
    } else if d == 7 {
        proof { reveal_strlit("7"); }
        assert("7"@ =~= seq![spec_digit(7)]);
        "7"
    } else if d == 8 {
        proof { reveal_strlit("8"); }
        assert("8"@ =~= seq![spec_digit(8)]);
        "8"
    } else {
        proof { reveal_strlit("9"); }
        assert("9"@ =~= seq![spec_digit(9)]);
        "9"
    }
}

/// Appends the decimal rendering of `n` to `out`.
pub fn push_decimal(out: &mut String, n: u64)
    ensures
        final(out)@ == old(out)@ + spec_decimal(n as nat),
    decreases n,
{
    if n < 10 {
        out.append(digit_str(n));
    } else {
        push_decimal(out, n / 10);
        out.append(digit_str(n % 10));
        assert(out@ =~= old(out)@ + spec_decimal(n as nat));
    }
}

// ------------------------------------------------------------------
// Indentation.
// ------------------------------------------------------------------

/// Four spaces per nesting level.
pub open spec fn spec_indent(levels: nat) -> Seq<char> {
    Seq::new(levels * 4, |i: int| ' ')
}

/// Appends `levels * 4` spaces to `out`.
pub fn push_indent(out: &mut String, levels: usize)
    ensures
        final(out)@ == old(out)@ + spec_indent(levels as nat),
{
    proof {
        reveal_strlit("    ");
    }
    assert("    "@ =~= Seq::new(4, |i: int| ' '));
    let mut k: usize = 0;
    while k < levels
        invariant
            k <= levels,
            "    "@ == Seq::new(4, |i: int| ' '),
            out@ == old(out)@ + spec_indent(k as nat),
        decreases levels - k,
    {
        out.append("    ");
        assert(out@ =~= old(out)@ + spec_indent((k + 1) as nat));
        k = k + 1;
    }
    assert(out@ =~= old(out)@ + spec_indent(levels as nat));
}

// ------------------------------------------------------------------
// Trailing-whitespace trimming for documentation lines.
// ------------------------------------------------------------------

/// The characters with the Unicode `White_Space` property.
pub open spec fn is_trailing_space(c: char) -> bool {
    let u = c as u32;
    ||| u == 0x09 ||| u == 0x0A ||| u == 0x0B ||| u == 0x0C ||| u == 0x0D ||| u == 0x20
    ||| u == 0x85 ||| u == 0xA0 ||| u == 0x1680
    ||| (0x2000 <= u && u <= 0x200A)
    ||| u == 0x2028 ||| u == 0x2029 ||| u == 0x202F ||| u == 0x205F ||| u == 0x3000
}

fn is_trailing_space_exec(c: char) -> (r: bool)
    ensures
        r == is_trailing_space(c),
{
    let u = c as u32;
    u == 0x09 || u == 0x0A || u == 0x0B || u == 0x0C || u == 0x0D || u == 0x20
        || u == 0x85 || u == 0xA0 || u == 0x1680
        || (0x2000 <= u && u <= 0x200A)
        || u == 0x2028 || u == 0x2029 || u == 0x202F || u == 0x205F || u == 0x3000
}

/// The given text without its trailing Unicode whitespace.
pub open spec fn spec_trim_end(s: Seq<char>) -> Seq<char>
    decreases s.len(),
{
    if s.len() == 0 {
        s
    } else if is_trailing_space(s.last()) {
        spec_trim_end(s.drop_last())
    } else {
        s
    }
}

pub fn trim_end_spaces(s: &str) -> (r: String)
    ensures
        r@ == spec_trim_end(s@),
{
    let n = s.unicode_len();
    assert(s@.take(n as int) =~= s@);
    let mut k = n;
    let mut stop = false;
    while k > 0 && !stop
        invariant
            k <= n,
            n == s@.len(),
            spec_trim_end(s@) == spec_trim_end(s@.take(k as int)),
            stop ==> (k > 0 && !is_trailing_space(s@[k - 1])),
        decreases k + (if stop { 0int } else { 1int }),
    {
        let c = s.get_char(k - 1);
        if is_trailing_space_exec(c) {
            proof {
                assert(s@.take(k as int).last() == s@[k - 1]);
                assert(s@.take(k as int).drop_last() =~= s@.take(k - 1));
            }
            k = k - 1;
        } else {
            stop = true;
        }
    }
    proof {
        if k == 0 {
            assert(s@.take(0).len() == 0);
        } else {
            assert(s@.take(k as int).last() == s@[k - 1]);
        }
        assert(spec_trim_end(s@.take(k as int)) == s@.take(k as int));
    }
    let r = s.substring_char(0, k).to_owned();
    assert(r@ =~= s@.take(k as int));
    r
}

// ------------------------------------------------------------------
// Reserved identifiers of the output language.
// ------------------------------------------------------------------

/// Whether the given name is a reserved word of the output language and
/// must be escaped or renamed in generated source.
pub open spec fn spec_is_keyword(s: Seq<char>) -> bool {
    ||| s == "as"@ ||| s == "break"@ ||| s == "const"@ ||| s == "continue"@
    ||| s == "crate"@ ||| s == "dyn"@ ||| s == "else"@ ||| s == "enum"@
    ||| s == "false"@ ||| s == "fn"@ ||| s == "for"@ ||| s == "if"@
    ||| s == "impl"@ ||| s == "in"@ ||| s == "let"@ ||| s == "loop"@
    ||| s == "match"@ ||| s == "mod"@ ||| s == "move"@ ||| s == "mut"@
    ||| s == "pub"@ ||| s == "ref"@ ||| s == "return"@ ||| s == "Self"@
    ||| s == "self"@ ||| s == "static"@ ||| s == "struct"@ ||| s == "super"@
    ||| s == "trait"@ ||| s == "true"@ ||| s == "type"@ ||| s == "unsafe"@
    ||| s == "use"@ ||| s == "where"@ ||| s == "while"@ ||| s == "abstract"@
    ||| s == "async"@ ||| s == "await"@ ||| s == "become"@ ||| s == "box"@
    ||| s == "do"@ ||| s == "macro"@ ||| s == "override"@ ||| s == "priv"@
    ||| s == "try"@ ||| s == "typeof"@ ||| s == "unsized"@ ||| s == "virtual"@
    ||| s == "yield"@
}

pub fn is_keyword(s: &str) -> (r: bool)
    ensures
        r == spec_is_keyword(s@),
{
    str_eq(s, "as") || str_eq(s, "break") || str_eq(s, "const") || str_eq(s, "continue")
        || str_eq(s, "crate") || str_eq(s, "dyn") || str_eq(s, "else") || str_eq(s, "enum")
        || str_eq(s, "false") || str_eq(s, "fn") || str_eq(s, "for") || str_eq(s, "if")
        || str_eq(s, "impl") || str_eq(s, "in") || str_eq(s, "let") || str_eq(s, "loop")
        || str_eq(s, "match") || str_eq(s, "mod") || str_eq(s, "move") || str_eq(s, "mut")
        || str_eq(s, "pub") || str_eq(s, "ref") || str_eq(s, "return") || str_eq(s, "Self")
        || str_eq(s, "self") || str_eq(s, "static") || str_eq(s, "struct") || str_eq(s, "super")
        || str_eq(s, "trait") || str_eq(s, "true") || str_eq(s, "type") || str_eq(s, "unsafe")
        || str_eq(s, "use") || str_eq(s, "where") || str_eq(s, "while") || str_eq(s, "abstract")
        || str_eq(s, "async") || str_eq(s, "await") || str_eq(s, "become") || str_eq(s, "box")
        || str_eq(s, "do") || str_eq(s, "macro") || str_eq(s, "override") || str_eq(s, "priv")
        || str_eq(s, "try") || str_eq(s, "typeof") || str_eq(s, "unsized") || str_eq(s, "virtual")
        || str_eq(s, "yield")
}

} // verus!
