//! Wide-character text: NUL removal, terminated buffers, command lines, and
//! decimal rendering of numbers for messages.

use vstd::prelude::*;
use vstd::string::StringExecFns;

verus! {

/// The code unit that separates a program name from its arguments.
pub const SPACE: u16 = 0x20;

/// `s` with every NUL code unit removed, the others in their order.
pub open spec fn without_nuls(s: Seq<u16>) -> Seq<u16> {
    s.filter(|c: u16| c != 0)
}

/// `s` followed by one NUL code unit.
pub open spec fn terminated(s: Seq<u16>) -> Seq<u16> {
    s.push(0u16)
}

/// The mutable command line handed to process creation: the program name,
/// one space and the arguments where there are any, and a closing NUL.
pub open spec fn command_line(appname: Seq<u16>, cmdline: Option<Seq<u16>>) -> Seq<u16> {
    match cmdline {
        Some(args) => terminated(appname.push(SPACE) + args),
        None => terminated(appname),
    }
}

/// The character of one decimal digit.
pub open spec fn digit(d: nat) -> char {
    if d == 0 {
        '0'
    } else if d == 1 {
        '1'
    } else if d == 2 {
        '2'
    } else if d == 3 {
        '3'
    } else if d == 4 {
        '4'
    } else if d == 5 {
        '5'
    } else if d == 6 {
        '6'
    } else if d == 7 {
        '7'
    } else if d == 8 {
        '8'
    } else {
        '9'
    }
}

/// The decimal digits of a natural number, most significant first, without
/// leading zeros.
pub open spec fn decimal_nat(n: nat) -> Seq<char>
    decreases n,
{
    if n < 10 {
        seq![digit(n)]
    } else {
        decimal_nat(n / 10).push(digit(n % 10))
    }
}

/// The decimal text of an integer, with a leading minus sign when negative.
pub open spec fn decimal(i: int) -> Seq<char> {
    if i < 0 {
        seq!['-'] + decimal_nat((-i) as nat)
    } else {
        decimal_nat(i as nat)
    }
}

/// Removing NULs leaves no NUL behind.
pub proof fn lemma_without_nuls_clean(s: Seq<u16>)
    ensures
        forall|i: int| 0 <= i < without_nuls(s).len() ==> without_nuls(s)[i] != 0,
        without_nuls(s).len() <= s.len(),
{
    broadcast use vstd::seq_lib::group_filter_ensures;

    assert forall|i: int| 0 <= i < without_nuls(s).len() implies without_nuls(s)[i] != 0 by {
        s.lemma_filter_pred(|c: u16| c != 0, i);
    }
}

/// Text that holds no NUL is left as it is.
pub proof fn lemma_without_nuls_identity(s: Seq<u16>)
    requires
        forall|i: int| 0 <= i < s.len() ==> s[i] != 0,
    ensures
        without_nuls(s) == s,
    decreases s.len(),
{
    reveal(Seq::filter);
    if s.len() > 0 {
        lemma_without_nuls_identity(s.drop_last());
        assert(s.drop_last().push(s.last()) =~= s);
    }
}

/// Removing NULs from two pieces and joining them is removing NULs from the
/// joined pieces.
pub proof fn lemma_without_nuls_concat(a: Seq<u16>, b: Seq<u16>)
    ensures
        without_nuls(a + b) == without_nuls(a) + without_nuls(b),
{
    Seq::filter_distributes_over_add(a, b, |c: u16| c != 0);
}

/// Copies `buf` without its NUL code units.
pub fn strip_nuls(buf: &Vec<u16>) -> (out: Vec<u16>)
    ensures
        out@ == without_nuls(buf@),
{
    let mut out: Vec<u16> = Vec::new();
    let mut i: usize = 0;
    proof {
        reveal(Seq::filter);
        assert(buf@.take(0) =~= Seq::<u16>::empty());
    }
    while i < buf.len()
        invariant
            i <= buf.len(),
            out@ == without_nuls(buf@.take(i as int)),
        decreases buf.len() - i,
    {
        let c: u16 = buf[i];
        proof {
            reveal(Seq::filter);
            assert(buf@.take(i + 1).drop_last() =~= buf@.take(i as int));
            assert(buf@.take(i + 1).last() == c);
        }
        if c != 0 {
            out.push(c);
        }
        i = i + 1;
    }
    proof {
        assert(buf@.take(i as int) =~= buf@);
    }
    out
}

/// Copies `text` and closes it with a NUL.
pub fn terminate(text: &Vec<u16>) -> (out: Vec<u16>)
    ensures
        out@ == terminated(text@),
{
    let mut out: Vec<u16> = text.clone();
    out.push(0u16);
    out
}

/// Builds the command line of a child from its program name and arguments.
pub fn compose_command_line(appname: &Vec<u16>, cmdline: Option<&Vec<u16>>) -> (out: Vec<u16>)
    ensures
        out@ == command_line(
            appname@,
            match cmdline {
                Some(args) => Some(args@),
                None => None,
            },
        ),
{
    let mut out: Vec<u16> = appname.clone();
    match cmdline {
        Some(args) => {
            out.push(SPACE);
            let mut i: usize = 0;
            while i < args.len()
                invariant
                    i <= args.len(),
                    out@ == appname@.push(SPACE) + args@.take(i as int),
                decreases args.len() - i,
            {
                out.push(args[i]);
                proof {
                    assert(args@.take(i + 1) =~= args@.take(i as int).push(args@[i as int]));
                }
                i = i + 1;
            }
            proof {
                assert(args@.take(i as int) =~= args@);
            }
        },
        None => {},
    }
    out.push(0u16);
    out
}

/// The one-character text of a decimal digit.
fn digit_text(d: u64) -> (s: &'static str)
    requires
        d < 10,
    ensures
        s@ == seq![digit(d as nat)],
{
    proof {
        reveal_strlit("0");
        reveal_strlit("1");
        reveal_strlit("2");
        reveal_strlit("3");
        reveal_strlit("4");
        reveal_strlit("5");
        reveal_strlit("6");
        reveal_strlit("7");
        reveal_strlit("8");
        reveal_strlit("9");
    }
    let s: &'static str = if d == 0 {
        "0"
    } else if d == 1 {
        "1"
    } else if d == 2 {
        "2"
    } else if d == 3 {
        "3"
    } else if d == 4 {
        "4"
    } else if d == 5 {
        "5"
    } else if d == 6 {
        "6"
    } else if d == 7 {
        "7"
    } else if d == 8 {
        "8"
    } else {
        "9"
    };
    assert(s@ =~= seq![digit(d as nat)]);
    s
}

/// Appends the decimal digits of `n` to `text`.
pub fn append_decimal_nat(text: &mut String, n: u64)
    ensures
        final(text)@ == old(text)@ + decimal_nat(n as nat),
    decreases n,
{
    if n >= 10 {
        append_decimal_nat(text, n / 10);
    }
    text.append(digit_text(n % 10));
    proof {
        if n >= 10 {
            assert(text@ =~= old(text)@ + decimal_nat(n as nat));
        } else {
            assert(text@ =~= old(text)@ + decimal_nat(n as nat));
        }
    }
}

/// Appends the decimal text of `value` to `text`.
pub fn append_decimal(text: &mut String, value: i64)
    ensures
        final(text)@ == old(text)@ + decimal(value as int),
{
    if value < 0 {
        text.append("-");
        proof {
            reveal_strlit("-");
        }
        let magnitude: u64 = if value == i64::MIN {
            9223372036854775808u64
        } else {
            (-value) as u64
        };
        append_decimal_nat(text, magnitude);
        proof {
            assert(text@ =~= old(text)@ + decimal(value as int));
        }
    } else {
        append_decimal_nat(text, value as u64);
    }
}

} // verus!

