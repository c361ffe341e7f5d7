//! Plain-text pieces of request bodies: decimal numbers and number lists.
use vstd::prelude::*;
use vstd::string::StringExecFns;

verus! {

/// The character of a decimal digit.
pub open spec fn digit_char(d: nat) -> char
    recommends
        d < 10,
{
    seq!['0', '1', '2', '3', '4', '5', '6', '7', '8', '9'][d as int]
}

/// The decimal notation of `n`, without leading zeros.
pub open spec fn decimal(n: nat) -> Seq<char>
    decreases n,
{
    if n < 10 {
        seq![digit_char(n)]
    } else {
        decimal(n / 10).push(digit_char(n % 10))
    }
}

/// The items joined with `", "` between neighbours.
pub open spec fn joined(items: Seq<String>) -> Seq<char>
    decreases items.len(),
{
    if items.len() == 0 {
        Seq::empty()
    } else if items.len() == 1 {
        items[0]@
    } else {
        joined(items.drop_last()) + seq![',', ' '] + items.last()@
    }
}

/// A bracketed list of items: `[a, b, c]`.
pub open spec fn list_text(items: Seq<String>) -> Seq<char> {
    seq!['['] + joined(items) + seq![']']
}

fn digit_text(d: u8) -> (r: &'static str)
    requires
        d < 10,
    ensures
        r@ == seq![digit_char(d as nat)],
{
    proof {
        reveal_strlit("0");
        reveal_strlit("1");
        reveal_strlit("2");
        reveal_strlit("3");
        reveal_strlit("4");
        reveal_strlit("5");
        reveal_strlit("6");
        reveal_strlit("7");
        reveal_strlit("8");
        reveal_strlit("9");
    }
    match d {
        0 => "0",
        1 => "1",
        2 => "2",
        3 => "3",
        4 => "4",
        5 => "5",
        6 => "6",
        7 => "7",
        8 => "8",
        _ => "9",
    }
}

/// Writes `n` in decimal.
pub fn decimal_text(n: u8) -> (r: String)
    ensures
        r@ == decimal(n as nat),
{
    if n < 10 {
        String::from_str(digit_text(n))
    } else if n < 100 {
        let mut r = String::from_str(digit_text(n / 10));
        r.append(digit_text(n % 10));
        proof {
            assert(decimal((n / 10) as nat) == seq![digit_char((n / 10) as nat)]);
        }
        r
    } else {
        let mut r = String::from_str(digit_text(n / 100));
        r.append(digit_text((n / 10) % 10));
        r.append(digit_text(n % 10));
        proof {
            let h = (n / 100) as nat;
            assert(decimal(h) == seq![digit_char(h)]);
            assert((n / 10) as nat / 10 == h);
            assert(decimal((n / 10) as nat) == seq![digit_char(h)].push(
                digit_char((n / 10) as nat % 10),
            ));
        }
        r
    }
}

/// Writes the items as a bracketed, comma-separated list.
pub fn list_text_of(items: &Vec<String>) -> (r: String)
    ensures
        r@ == list_text(items@),
{
    proof {
        reveal_strlit("[");
        reveal_strlit("]");
        assert("["@ =~= seq!['[']);
    }
    let mut out = String::from_str("[");
    let mut i: usize = 0;
    while i < items.len()
        invariant
            i <= items@.len(),
            out@ == seq!['['] + joined(items@.subrange(0, i as int)),
        decreases items@.len() - i,
    {
        let ghost before = items@.subrange(0, i as int);
        let ghost after = items@.subrange(0, i as int + 1);
        assert(after.drop_last() =~= before);
        let ghost start = out@;
        if i > 0 {
            proof {
                reveal_strlit(", ");
                assert(", "@ =~= seq![',', ' ']);
            }
            out.append(", ");
            assert(out@ =~= start + seq![',', ' ']);
        } else {
            assert(joined(before) =~= Seq::<char>::empty());
        }
        let ghost mid = out@;
        let item = items[i].as_str();
        assert(item@ == items@[i as int]@);
        out.append(item);
        assert(out@ == mid + items@[i as int]@);
        assert(after.last() == items@[i as int]);
        if i == 0 {
            assert(joined(after) == items@[0]@);
        } else {
            assert(joined(after) == joined(before) + seq![',', ' '] + items@[i as int]@);
        }
        assert(out@ =~= seq!['['] + joined(after));
        i = i + 1;
    }
    assert(items@.subrange(0, items@.len() as int) =~= items@);
    proof {
        reveal_strlit("]");
        assert("]"@ =~= seq![']']);
    }
    out.append("]");
    out
}

} // verus!
