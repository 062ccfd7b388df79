use convert_case::{Case, Casing};
use vstd::prelude::*;

verus! {

/// What `convert_case` makes of a name in `Case::Pascal`.
pub uninterp spec fn pascal_case_of(s: Seq<char>) -> Seq<char>;

/// What `convert_case` makes of a name in `Case::Snake`.
pub uninterp spec fn snake_case_of(s: Seq<char>) -> Seq<char>;

/// Relies on convert_case's `Casing::to_case(Case::Pascal)`: the result is a
/// function of the characters of `s` alone.
#[verifier::external_body]
fn to_pascal_case(s: &str) -> (r: String)
    ensures
        r@ == pascal_case_of(s@),
{
    s.to_case(Case::Pascal)
}

/// Relies on convert_case's `Casing::to_case(Case::Snake)`: the result is a
/// function of the characters of `s` alone.
#[verifier::external_body]
fn to_snake_case(s: &str) -> (r: String)
    ensures
        r@ == snake_case_of(s@),
{
    s.to_case(Case::Snake)
}

/// The wire-variant tag of a handler: its name in Pascal case
/// (`do_this` becomes `DoThis`).
pub fn variant_name(handler_name: &str) -> (r: String)
    ensures
        r@ == pascal_case_of(handler_name@),
{
    to_pascal_case(handler_name)
}

/// `prefix` in snake case followed by `suffix`.
pub open spec fn snake_prefixed(prefix: Seq<char>, suffix: Seq<char>) -> Seq<char> {
    snake_case_of(prefix) + suffix
}

/// Name under which the generated code imports the binary codec crate.
pub fn get_scale_codec_crate_ident(prefix: &str) -> (r: String)
    ensures
        r@ == snake_prefixed(prefix@, "_scale_codec"@),
{
    let mut r = to_snake_case(prefix);
    r.append("_scale_codec");
    r
}

/// Name under which the generated code imports the type-registry crate.
pub fn get_scale_info_crate_ident(prefix: &str) -> (r: String)
    ensures
        r@ == snake_prefixed(prefix@, "_scale_info"@),
{
    let mut r = to_snake_case(prefix);
    r.append("_scale_info");
    r
}

/// Name of the module that holds the dispatch function and the entry point.
pub fn get_handlers_mod_ident(prefix: &str) -> (r: String)
    ensures
        r@ == snake_prefixed(prefix@, "_handlers_wasm"@),
{
    let mut r = to_snake_case(prefix);
    r.append("_handlers_wasm");
    r
}

/// The decimal digits of `n`, most significant first, without leading zeros.
pub open spec fn decimal_digits(n: nat) -> Seq<char>
    decreases n,
{
    if n < 10 {
        seq![digit_char(n)]
    } else {
        decimal_digits(n / 10).push(digit_char(n % 10))
    }
}

pub open spec fn digit_char(d: nat) -> char {
    seq!['0', '1', '2', '3', '4', '5', '6', '7', '8', '9'][d as int]
}

/// The name bound to the `i`-th positional field in a dispatch arm: `v0`, `v1`, ...
pub open spec fn binding_name_spec(i: nat) -> Seq<char> {
    seq!['v'] + decimal_digits(i)
}

/// Relies on `format!` writing a `usize` in decimal without leading zeros.
#[verifier::external_body]
fn decimal_string(i: usize) -> (r: String)
    ensures
        r@ == decimal_digits(i as nat),
{
    format!("{}", i)
}

/// The name bound to the `i`-th positional field in a dispatch arm.
pub fn binding_name(i: usize) -> (r: String)
    ensures
        r@ == binding_name_spec(i as nat),
{
    let mut r = String::from_str("v");
    let digits = decimal_string(i);
    r.append(digits.as_str());
    proof {
        reveal_strlit("v");
    }
    assert(r@ =~= binding_name_spec(i as nat));
    r
}

proof fn lemma_digit_char_injective(a: nat, b: nat)
    requires
        a < 10,
        b < 10,
        digit_char(a) == digit_char(b),
    ensures
        a == b,
{
}

proof fn lemma_decimal_digits_nonempty(n: nat)
    ensures
        decimal_digits(n).len() >= 1,
    decreases n,
{
    if n >= 10 {
        lemma_decimal_digits_nonempty(n / 10);
    }
}

/// Distinct numbers have distinct decimal spellings.
pub proof fn lemma_decimal_digits_injective(a: nat, b: nat)
    requires
        decimal_digits(a) == decimal_digits(b),
    ensures
        a == b,
    decreases a,
{
    if a < 10 && b < 10 {
        assert(decimal_digits(a) == seq![digit_char(a)]);
        assert(decimal_digits(b) == seq![digit_char(b)]);
        assert(decimal_digits(a)[0] == digit_char(a));
        assert(decimal_digits(b)[0] == digit_char(b));
        lemma_digit_char_injective(a, b);
    } else if a < 10 {
        lemma_decimal_digits_nonempty(b / 10);
        assert(decimal_digits(b).len() >= 2);
    } else if b < 10 {
        lemma_decimal_digits_nonempty(a / 10);
        assert(decimal_digits(a).len() >= 2);
    } else {
        let da = decimal_digits(a / 10);
        let db = decimal_digits(b / 10);
        assert(decimal_digits(a) == da.push(digit_char(a % 10)));
        assert(decimal_digits(b) == db.push(digit_char(b % 10)));
        assert(da.len() == db.len());
        assert(da =~= decimal_digits(a).drop_last());
        assert(db =~= decimal_digits(b).drop_last());
        lemma_decimal_digits_injective(a / 10, b / 10);
        assert(decimal_digits(a).last() == digit_char(a % 10));
        assert(decimal_digits(b).last() == digit_char(b % 10));
        lemma_digit_char_injective(a % 10, b % 10);
    }
}

/// Bindings of different positions have different names.
pub proof fn lemma_binding_names_distinct(i: nat, j: nat)
    requires
        i != j,
    ensures
        binding_name_spec(i) != binding_name_spec(j),
{
    if binding_name_spec(i) == binding_name_spec(j) {
        assert(decimal_digits(i) =~= binding_name_spec(i).drop_first());
        assert(decimal_digits(j) =~= binding_name_spec(j).drop_first());
        lemma_decimal_digits_injective(i, j);
    }
}

} // verus!
