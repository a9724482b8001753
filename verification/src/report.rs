use vstd::prelude::*;

verus! {

/// The character for one decimal digit.
pub open spec fn digit_char(d: nat) -> char {
    if d == 0 {
        '0'
    } else if d == 1 {
        '1'
    } else if d == 2 {
        '2'
    } else if d == 3 {
        '3'
    } else if d == 4 {
        '4'
    } else if d == 5 {
        '5'
    } else if d == 6 {
        '6'
    } else if d == 7 {
        '7'
    } else if d == 8 {
        '8'
    } else {
        '9'
    }
}

/// The decimal digits of `n`, most significant first, without leading
/// zeros (zero itself is the single digit `0`).
pub open spec fn dec_digits(n: nat) -> Seq<char>
    decreases n,
{
    if n < 10 {
        seq![digit_char(n)]
    } else {
        dec_digits(n / 10) + seq![digit_char(n % 10)]
    }
}

/// One line of the report: the code, a colon and a space, the decimal
/// count, and a line break.
pub open spec fn report_line(code: Seq<char>, count: u64) -> Seq<char> {
    code + seq![':', ' '] + dec_digits(count as nat) + seq!['\n']
}

/// The whole report: one line per entry, in the entries' order.
pub open spec fn report_of(entries: Seq<(String, u64)>) -> Seq<char>
    decreases entries.len(),
{
    if entries.len() == 0 {
        Seq::<char>::empty()
    } else {
        report_of(entries.drop_last()) + report_line(entries.last().0@, entries.last().1)
    }
}

/// Returns the one-character string for digit `d`.
fn digit_str(d: u64) -> (s: &'static str)
    requires
        d < 10,
    ensures
        s@ == seq![digit_char(d as nat)],
{
    proof {
        reveal_strlit("0");
        reveal_strlit("1");
        reveal_strlit("2");
        reveal_strlit("3");
        reveal_strlit("4");
        reveal_strlit("5");
        reveal_strlit("6");
        reveal_strlit("7");
        reveal_strlit("8");
        reveal_strlit("9");
    }
    match d {
        0 => "0",
        1 => "1",
        2 => "2",
        3 => "3",
        4 => "4",
        5 => "5",
        6 => "6",
        7 => "7",
        8 => "8",
        _ => "9",
    }
}

/// Writes `n` in decimal, most significant digit first, without leading
/// zeros.
pub fn u64_to_dec(n: u64) -> (s: String)
    ensures
        s@ == dec_digits(n as nat),
    decreases n,
{
    if n < 10 {
        digit_str(n).to_owned()
    } else {
        assert(n / 10 < n) by (nonlinear_arith)
            requires
                n >= 10,
        ;
        let mut s = u64_to_dec(n / 10);
        s.append(digit_str(n % 10));
        s
    }
}

/// Renders the counter listing as a plain-text report, one
/// `CODE: COUNT` line per entry, in the entries' order.
pub fn render_analytics(entries: &Vec<(String, u64)>) -> (r: String)
    ensures
        r@ == report_of(entries@),
{
    let mut out = String::new();
    let mut i: usize = 0;
    while i < entries.len()
        invariant
            i <= entries.len(),
            out@ == report_of(entries@.take(i as int)),
        decreases entries.len() - i,
    {
        proof {
            reveal_strlit(": ");
            reveal_strlit("\n");
        }
        out.append(entries[i].0.as_str());
        out.append(": ");
        let count = u64_to_dec(entries[i].1);
        out.append(count.as_str());
        out.append("\n");
        proof {
            let pre = entries@.take(i as int);
            let post = entries@.take(i + 1 as int);
            assert(post.drop_last() =~= pre);
            assert(post.last() == entries@[i as int]);
            assert(out@ =~= report_of(post));
        }
        i = i + 1;
    }
    proof {
        assert(entries@.take(entries@.len() as int) =~= entries@);
    }
    out
}

} // verus!
