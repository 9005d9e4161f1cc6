use vstd::prelude::*;

verus! {

/// The lower-case form of `s`, as `str::to_lowercase` gives it.
pub uninterp spec fn lower_of(s: Seq<char>) -> Seq<char>;

/// Relies on `str::to_lowercase`: the result depends on the characters alone.
#[verifier::external_body]
fn lowercase(s: &str) -> (r: String)
    ensures
        r@ == lower_of(s@),
{
    s.to_lowercase()
}

/// The words read as `true`.
pub open spec fn truthy(s: Seq<char>) -> bool {
    s == seq!['t', 'r', 'u', 'e'] || s == seq!['1'] || s == seq!['y', 'e', 's'] || s == seq!['y']
}

/// The words read as `false`.
pub open spec fn falsy(s: Seq<char>) -> bool {
    s == seq!['f', 'a', 'l', 's', 'e'] || s == seq!['0'] || s == seq!['n', 'o'] || s == seq!['n']
}

/// Relies on `format!` with `Debug` to quote the value in an error message.
#[verifier::external_body]
fn unexpected_value(s: &String) -> (r: String) {
    format!("Unexpected value {:?}", s)
}

fn word(w: &str) -> (r: String)
    ensures
        r@ == w@,
{
    w.to_owned()
}

/// Reads a lower-case word as a flag: `true`, `1`, `yes`, `y` or `false`,
/// `0`, `no`, `n`; anything else is an error.
pub fn parse_lowered_bool(lowered: &String) -> (r: Result<bool, String>)
    ensures
        r is Ok <==> truthy(lowered@) || falsy(lowered@),
        r matches Ok(b) ==> b == truthy(lowered@),
{
    proof {
        reveal_strlit("true");
        reveal_strlit("1");
        reveal_strlit("yes");
        reveal_strlit("y");
        reveal_strlit("false");
        reveal_strlit("0");
        reveal_strlit("no");
        reveal_strlit("n");
        assert("true"@ =~= seq!['t', 'r', 'u', 'e']);
        assert("1"@ =~= seq!['1']);
        assert("yes"@ =~= seq!['y', 'e', 's']);
        assert("y"@ =~= seq!['y']);
        assert("false"@ =~= seq!['f', 'a', 'l', 's', 'e']);
        assert("0"@ =~= seq!['0']);
        assert("no"@ =~= seq!['n', 'o']);
        assert("n"@ =~= seq!['n']);
    }
    if *lowered == word("true") || *lowered == word("1") || *lowered == word("yes") || *lowered
        == word("y") {
        Ok(true)
    } else if *lowered == word("false") || *lowered == word("0") || *lowered == word("no")
        || *lowered == word("n") {
        Ok(false)
    } else {
        Err(unexpected_value(lowered))
    }
}

/// Reads a flag whatever its case.
pub fn parse_bool(value: &str) -> (r: Result<bool, String>)
    ensures
        r is Ok <==> truthy(lower_of(value@)) || falsy(lower_of(value@)),
        r matches Ok(b) ==> b == truthy(lower_of(value@)),
{
    let lowered = lowercase(value);
    parse_lowered_bool(&lowered)
}

/// Whether `value` reads as a flag, whatever its case.
pub fn is_valid_bool(value: &str) -> (r: Result<(), String>)
    ensures
        r is Ok <==> truthy(lower_of(value@)) || falsy(lower_of(value@)),
{
    match parse_bool(value) {
        Ok(_) => Ok(()),
        Err(e) => Err(e),
    }
}

/// The value of a string of decimal digits.
pub open spec fn digits_value(s: Seq<char>) -> int
    decreases s.len(),
{
    if s.len() == 0 {
        0
    } else {
        digits_value(s.drop_last()) * 10 + (s.last() as int - '0' as int)
    }
}

/// The `u64` that `s` spells: an optional `+`, then one or more decimal
/// digits, for a value that fits.
pub open spec fn u64_text(s: Seq<char>) -> Option<u64> {
    let d = if s.len() > 0 && s[0] == '+' {
        s.subrange(1, s.len() as int)
    } else {
        s
    };
    if d.len() > 0 && (forall|i: int| 0 <= i < d.len() ==> '0' <= #[trigger] d[i] <= '9')
        && digits_value(d) <= u64::MAX {
        Some(digits_value(d) as u64)
    } else {
        None
    }
}

/// Relies on `str::parse::<u64>`, which takes an optional `+` and decimal
/// digits and refuses a value that does not fit; the error is quoted into a
/// message.
#[verifier::external_body]
fn parse_u64(s: &str) -> (r: Result<u64, String>)
    ensures
        match r {
            Ok(v) => u64_text(s@) == Some(v),
            Err(_) => u64_text(s@) is None,
        },
{
    s.parse::<u64>().map_err(|err| format!("Failed to parse u64 {:?}: {:?}", s, err))
}

/// Whether `value` spells a `u64`.
pub fn is_valid_u64(value: &str) -> (r: Result<(), String>)
    ensures
        r is Ok <==> u64_text(value@) is Some,
{
    match parse_u64(value) {
        Ok(_) => Ok(()),
        Err(e) => Err(e),
    }
}

/// The `u64` that `value` spells.
pub fn parse_amount(value: &str) -> (r: Result<u64, String>)
    ensures
        r is Ok <==> u64_text(value@) is Some,
        r matches Ok(v) ==> u64_text(value@) == Some(v),
{
    parse_u64(value)
}

} // verus!
