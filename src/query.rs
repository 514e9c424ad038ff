use vstd::prelude::*;

verus! {

/// Two query strings joined by `&`; an empty one adds nothing.
pub open spec fn join_query(a: Seq<char>, b: Seq<char>) -> Seq<char> {
    if a.len() == 0 {
        b
    } else if b.len() == 0 {
        a
    } else {
        a + seq!['&'] + b
    }
}

/// `key=value`.
pub open spec fn param_text(key: Seq<char>, value: Seq<char>) -> Seq<char> {
    key + seq!['='] + value
}

/// The query string of the parameters `ps`, in order, joined by `&`.
pub open spec fn query_text(ps: Seq<(Seq<char>, Seq<char>)>) -> Seq<char>
    decreases ps.len(),
{
    if ps.len() == 0 {
        Seq::empty()
    } else {
        join_query(query_text(ps.drop_last()), param_text(ps.last().0, ps.last().1))
    }
}

pub open spec fn digit_char(d: nat) -> char {
    if d == 0 {
        '0'
    } else if d == 1 {
        '1'
    } else if d == 2 {
        '2'
    } else if d == 3 {
        '3'
    } else if d == 4 {
        '4'
    } else if d == 5 {
        '5'
    } else if d == 6 {
        '6'
    } else if d == 7 {
        '7'
    } else if d == 8 {
        '8'
    } else {
        '9'
    }
}

/// The decimal digits of `n`, without sign or leading zeros.
pub open spec fn decimal_text(n: nat) -> Seq<char>
    decreases n,
{
    if n < 10 {
        seq![digit_char(n)]
    } else {
        decimal_text(n / 10) + seq![digit_char(n % 10)]
    }
}

pub open spec fn bool_text(b: bool) -> Seq<char> {
    if b {
        "true"@
    } else {
        "false"@
    }
}

/// Appends `key=value` to a query string, after an `&` unless it was empty.
pub fn append_query_param(query: &mut String, key: &str, value: &str)
    ensures
        final(query)@ == join_query(old(query)@, param_text(key@, value@)),
{
    proof {
        reveal_strlit("&");
        reveal_strlit("=");
    }
    if query.unicode_len() > 0 {
        query.append("&");
    }
    query.append(key);
    query.append("=");
    query.append(value);
    assert(final(query)@ =~= join_query(old(query)@, param_text(key@, value@)));
}

fn digit_str(d: u64) -> (r: &'static str)
    requires
        d < 10,
    ensures
        r@ == seq![digit_char(d as nat)],
{
    proof {
        reveal_strlit("0");
        reveal_strlit("1");
        reveal_strlit("2");
        reveal_strlit("3");
        reveal_strlit("4");
        reveal_strlit("5");
        reveal_strlit("6");
        reveal_strlit("7");
        reveal_strlit("8");
        reveal_strlit("9");
    }
    if d == 0 {
        "0"
    } else if d == 1 {
        "1"
    } else if d == 2 {
        "2"
    } else if d == 3 {
        "3"
    } else if d == 4 {
        "4"
    } else if d == 5 {
        "5"
    } else if d == 6 {
        "6"
    } else if d == 7 {
        "7"
    } else if d == 8 {
        "8"
    } else {
        "9"
    }
}

/// The decimal text of `n`.
pub fn decimal_string(n: u64) -> (r: String)
    ensures
        r@ == decimal_text(n as nat),
{
    let mut m = n;
    let mut tail = String::new();
    while m >= 10
        invariant
            decimal_text(n as nat) == decimal_text(m as nat) + tail@,
        decreases m,
    {
        let digit = String::from_str(digit_str(m % 10));
        let ghost old_tail = tail@;
        tail = digit.concat(tail.as_str());
        assert(decimal_text(m as nat) == decimal_text((m / 10) as nat) + seq![
            digit_char((m % 10) as nat),
        ]);
        assert(decimal_text(m as nat) + old_tail =~= decimal_text((m / 10) as nat) + tail@);
        m = m / 10;
    }
    let r = String::from_str(digit_str(m)).concat(tail.as_str());
    assert(r@ =~= decimal_text(n as nat));
    r
}

/// `true` or `false`.
pub fn bool_str(b: bool) -> (r: &'static str)
    ensures
        r@ == bool_text(b),
{
    if b {
        "true"
    } else {
        "false"
    }
}

} // verus!
