use vstd::prelude::*;

verus! {

pub open spec fn digit_char(d: nat) -> char {
    if d == 0 { '0' }
    else if d == 1 { '1' }
    else if d == 2 { '2' }
    else if d == 3 { '3' }
    else if d == 4 { '4' }
    else if d == 5 { '5' }
    else if d == 6 { '6' }
    else if d == 7 { '7' }
    else if d == 8 { '8' }
    else if d == 9 { '9' }
    else if d == 10 { 'a' }
    else if d == 11 { 'b' }
    else if d == 12 { 'c' }
    else if d == 13 { 'd' }
    else if d == 14 { 'e' }
    else { 'f' }
}

/// Digits of `n` in base `b`, most significant first, without leading zeros.
pub open spec fn nat_digits(n: nat, b: nat) -> Seq<char>
    decreases n
    via nat_digits_decreases
{
    if b < 2 || n < b {
        seq![digit_char(n)]
    } else {
        nat_digits(n / b, b).push(digit_char(n % b))
    }
}

#[via_fn]
proof fn nat_digits_decreases(n: nat, b: nat) {
    if !(b < 2 || n < b) {
        assert(n / b < n) by (nonlinear_arith)
            requires
                b >= 2,
                n >= b,
        ;
    }
}

/// Decimal text of an integer, with a leading `-` when negative.
pub open spec fn int_text(v: int) -> Seq<char> {
    if v < 0 {
        seq!['-'] + nat_digits((-v) as nat, 10)
    } else {
        nat_digits(v as nat, 10)
    }
}

/// Lower-case hexadecimal text of a number, prefixed by `0x`.
pub open spec fn hex_text(v: nat) -> Seq<char> {
    seq!['0', 'x'] + nat_digits(v, 16)
}

pub open spec fn bool_text(b: bool) -> Seq<char> {
    if b { "true"@ } else { "false"@ }
}

/// What the `Debug` rendering of a string gives for these characters: the
/// quoted, escaped text.
pub uninterp spec fn debug_str_of(s: Seq<char>) -> Seq<char>;

/// Relies on the `Display` impl of `u64`: decimal digits, no sign, no
/// leading zeros.
#[verifier::external_body]
pub(crate) fn u64_text(v: u64) -> (r: String)
    ensures
        r@ == int_text(v as int),
{
    format!("{}", v)
}

/// Relies on the `Display` impl of `i64`: decimal digits with a `-` for a
/// negative value.
#[verifier::external_body]
pub(crate) fn i64_text(v: i64) -> (r: String)
    ensures
        r@ == int_text(v as int),
{
    format!("{}", v)
}

/// Relies on the alternate `LowerHex` impl of `u64`: `0x` and lower-case
/// hexadecimal digits, no leading zeros.
#[verifier::external_body]
pub(crate) fn u64_hex_text(v: u64) -> (r: String)
    ensures
        r@ == hex_text(v as nat),
{
    format!("{:#x}", v)
}

/// Relies on the `Debug` impl of `str`: a quoted, escaped rendering that
/// depends on the characters alone.
#[verifier::external_body]
pub(crate) fn str_debug_text(s: &str) -> (r: String)
    ensures
        r@ == debug_str_of(s@),
{
    format!("{:?}", s)
}

/// Items separated by `, `.
pub open spec fn join(items: Seq<Seq<char>>) -> Seq<char>
    decreases items.len(),
{
    if items.len() == 0 {
        Seq::empty()
    } else if items.len() == 1 {
        items[0]
    } else {
        join(items.drop_last()) + ", "@ + items.last()
    }
}

/// Items in brackets, separated by `, `.
pub open spec fn list_text(items: Seq<Seq<char>>) -> Seq<char> {
    "["@ + join(items) + "]"@
}

/// `None`, or `Some(...)` around the bracketed items.
pub open spec fn opt_list_text(items: Option<Seq<Seq<char>>>) -> Seq<char> {
    match items {
        Some(xs) => "Some("@ + list_text(xs) + ")"@,
        None => "None"@,
    }
}

pub open spec fn string_views(v: Seq<String>) -> Seq<Seq<char>> {
    v.map_values(|t: String| t@)
}

pub open spec fn float_texts(v: Seq<u64>) -> Seq<Seq<char>> {
    v.map_values(|x: u64| hex_text(x as nat))
}

pub open spec fn int_texts(v: Seq<i64>) -> Seq<Seq<char>> {
    v.map_values(|x: i64| int_text(x as int))
}

pub open spec fn uint_texts(v: Seq<u64>) -> Seq<Seq<char>> {
    v.map_values(|x: u64| int_text(x as int))
}

pub open spec fn byte_texts(v: Seq<u8>) -> Seq<Seq<char>> {
    v.map_values(|x: u8| int_text(x as int))
}

pub open spec fn bool_texts(v: Seq<bool>) -> Seq<Seq<char>> {
    v.map_values(|x: bool| bool_text(x))
}

pub open spec fn str_texts(v: Seq<String>) -> Seq<Seq<char>> {
    v.map_values(|x: String| debug_str_of(x@))
}

/// Renders already rendered items as a bracketed list.
pub fn list_of(texts: &Vec<String>) -> (r: String)
    ensures
        r@ == list_text(string_views(texts@)),
{
    let ghost items = string_views(texts@);
    let mut s = String::from_str("[");
    let mut i: usize = 0;
    while i < texts.len()
        invariant
            i <= texts@.len(),
            items == string_views(texts@),
            s@ == "["@ + join(items.take(i as int)),
        decreases texts.len() - i,
    {
        if i > 0 {
            s.append(", ");
        }
        s.append(texts[i].as_str());
        proof {
            let next = items.take(i + 1);
            assert(next.drop_last() =~= items.take(i as int));
            assert(s@ =~= "["@ + join(next));
        }
        i += 1;
    }
    assert(items.take(texts@.len() as int) =~= items);
    s.append("]");
    s
}

pub fn float_list(xs: &[u64]) -> (r: String)
    ensures
        r@ == list_text(float_texts(xs@)),
{
    let mut out: Vec<String> = Vec::new();
    let mut i: usize = 0;
    while i < xs.len()
        invariant
            i <= xs@.len(),
            out@.len() == i,
            forall|k: int| 0 <= k < i ==> #[trigger] out@[k]@ == hex_text(xs@[k] as nat),
        decreases xs.len() - i,
    {
        out.push(u64_hex_text(xs[i]));
        i += 1;
    }
    assert(string_views(out@) =~= float_texts(xs@));
    list_of(&out)
}

pub fn int_list(xs: &[i64]) -> (r: String)
    ensures
        r@ == list_text(int_texts(xs@)),
{
    let mut out: Vec<String> = Vec::new();
    let mut i: usize = 0;
    while i < xs.len()
        invariant
            i <= xs@.len(),
            out@.len() == i,
            forall|k: int| 0 <= k < i ==> #[trigger] out@[k]@ == int_text(xs@[k] as int),
        decreases xs.len() - i,
    {
        out.push(i64_text(xs[i]));
        i += 1;
    }
    assert(string_views(out@) =~= int_texts(xs@));
    list_of(&out)
}

pub fn uint_list(xs: &[u64]) -> (r: String)
    ensures
        r@ == list_text(uint_texts(xs@)),
{
    let mut out: Vec<String> = Vec::new();
    let mut i: usize = 0;
    while i < xs.len()
        invariant
            i <= xs@.len(),
            out@.len() == i,
            forall|k: int| 0 <= k < i ==> #[trigger] out@[k]@ == int_text(xs@[k] as int),
        decreases xs.len() - i,
    {
        out.push(u64_text(xs[i]));
        i += 1;
    }
    assert(string_views(out@) =~= uint_texts(xs@));
    list_of(&out)
}

pub fn byte_list(xs: &[u8]) -> (r: String)
    ensures
        r@ == list_text(byte_texts(xs@)),
{
    let mut out: Vec<String> = Vec::new();
    let mut i: usize = 0;
    while i < xs.len()
        invariant
            i <= xs@.len(),
            out@.len() == i,
            forall|k: int| 0 <= k < i ==> #[trigger] out@[k]@ == int_text(xs@[k] as int),
        decreases xs.len() - i,
    {
        out.push(u64_text(xs[i] as u64));
        i += 1;
    }
    assert(string_views(out@) =~= byte_texts(xs@));
    list_of(&out)
}

pub fn bool_list(xs: &[bool]) -> (r: String)
    ensures
        r@ == list_text(bool_texts(xs@)),
{
    let mut out: Vec<String> = Vec::new();
    let mut i: usize = 0;
    while i < xs.len()
        invariant
            i <= xs@.len(),
            out@.len() == i,
            forall|k: int| 0 <= k < i ==> #[trigger] out@[k]@ == bool_text(xs@[k]),
        decreases xs.len() - i,
    {
        let t = if xs[i] { String::from_str("true") } else { String::from_str("false") };
        out.push(t);
        i += 1;
    }
    assert(string_views(out@) =~= bool_texts(xs@));
    list_of(&out)
}

pub fn str_list(xs: &[String]) -> (r: String)
    ensures
        r@ == list_text(str_texts(xs@)),
{
    let mut out: Vec<String> = Vec::new();
    let mut i: usize = 0;
    while i < xs.len()
        invariant
            i <= xs@.len(),
            out@.len() == i,
            forall|k: int| 0 <= k < i ==> #[trigger] out@[k]@ == debug_str_of(xs@[k]@),
        decreases xs.len() - i,
    {
        out.push(str_debug_text(xs[i].as_str()));
        i += 1;
    }
    assert(string_views(out@) =~= str_texts(xs@));
    list_of(&out)
}

} // verus!
