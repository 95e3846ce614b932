use vstd::prelude::*;

verus! {

/// The placeholder in a name template that stands for the user.
pub open spec fn placeholder() -> Seq<char> {
    "{user}"@
}

/// The digit character of `d`, for `d < 10`.
pub open spec fn digit_char(d: nat) -> char {
    seq!['0', '1', '2', '3', '4', '5', '6', '7', '8', '9'][d as int]
}

/// The decimal digits of `n`, most significant first, without leading zeros.
pub open spec fn decimal_digits(n: nat) -> Seq<char>
    decreases n,
{
    if n < 10 {
        seq![digit_char(n)]
    } else {
        decimal_digits(n / 10).push(digit_char(n % 10))
    }
}

/// `s` with every occurrence of `pat`, found from the left without overlap,
/// replaced by `to`.
pub open spec fn replaced(s: Seq<char>, pat: Seq<char>, to: Seq<char>) -> Seq<char>
    decreases s.len(),
{
    if s.len() == 0 {
        seq![]
    } else if 0 < pat.len() <= s.len() && s.subrange(0, pat.len() as int) == pat {
        to + replaced(s.subrange(pat.len() as int, s.len() as int), pat, to)
    } else {
        seq![s[0]] + replaced(s.subrange(1, s.len() as int), pat, to)
    }
}

/// The name of the room of `user` under `template`.
pub open spec fn room_name(template: Seq<char>, user: u64) -> Seq<char> {
    replaced(template, placeholder(), decimal_digits(user as nat))
}

/// Relies on `u64::to_string`: the number in decimal, no sign, no padding.
#[verifier::external_body]
pub(crate) fn decimal_string(n: u64) -> (r: String)
    ensures
        r@ == decimal_digits(n as nat),
{
    n.to_string()
}

/// Relies on `str::replace`: each non-overlapping match of a non-empty
/// pattern, scanning from the left, is replaced.
#[verifier::external_body]
fn replace_all(s: &str, pat: &str, to: &str) -> (r: String)
    requires
        pat@.len() > 0,
    ensures
        r@ == replaced(s@, pat@, to@),
{
    s.replace(pat, to)
}

/// The name of the room of `user`: `template` with the placeholder `{user}`
/// replaced by the user id in decimal.
pub fn room_name_for(template: &str, user: u64) -> (r: String)
    ensures
        r@ == room_name(template@, user),
{
    let digits = decimal_string(user);
    let pat = "{user}";
    proof {
        reveal_strlit("{user}");
    }
    replace_all(template, pat, digits.as_str())
}

} // verus!
