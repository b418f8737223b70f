//! Text the data plane produces: decimal numbers, the bulk insert
//! statement, and the metrics snapshot.
use vstd::prelude::*;
use crate::writer::PacketRepository;

verus! {

/// The decimal digit `d` as text.
pub open spec fn digit_text(d: nat) -> Seq<char> {
    if d == 0 {
        "0"@
    } else if d == 1 {
        "1"@
    } else if d == 2 {
        "2"@
    } else if d == 3 {
        "3"@
    } else if d == 4 {
        "4"@
    } else if d == 5 {
        "5"@
    } else if d == 6 {
        "6"@
    } else if d == 7 {
        "7"@
    } else if d == 8 {
        "8"@
    } else {
        "9"@
    }
}

/// `n` in decimal, without leading zeros.
pub open spec fn decimal(n: nat) -> Seq<char>
    decreases n,
{
    if n < 10 {
        digit_text(n)
    } else {
        decimal(n / 10) + digit_text(n % 10)
    }
}

fn digit_str(d: u64) -> (r: &'static str)
    requires
        d < 10,
    ensures
        r@ == digit_text(d as nat),
{
    if d == 0 {
        "0"
    } else if d == 1 {
        "1"
    } else if d == 2 {
        "2"
    } else if d == 3 {
        "3"
    } else if d == 4 {
        "4"
    } else if d == 5 {
        "5"
    } else if d == 6 {
        "6"
    } else if d == 7 {
        "7"
    } else if d == 8 {
        "8"
    } else {
        "9"
    }
}

/// Appends `n` in decimal.
pub fn push_decimal(s: &mut String, n: u64)
    ensures
        final(s)@ == old(s)@ + decimal(n as nat),
    decreases n,
{
    if n < 10 {
        s.append(digit_str(n));
    } else {
        push_decimal(s, n / 10);
        s.append(digit_str(n % 10));
        assert(final(s)@ =~= old(s)@ + decimal(n as nat));
    }
}

/// `n` in decimal.
pub fn decimal_string(n: u64) -> (r: String)
    ensures
        r@ == decimal(n as nat),
{
    let mut s = String::new();
    push_decimal(&mut s, n);
    assert(s@ =~= decimal(n as nat));
    s
}

/// Columns of the packets table, in the order of the insert's values.
pub open spec fn insert_head() -> Seq<char> {
    "INSERT INTO packets (src_mac, dst_mac, ether_type, src_ip, dst_ip, src_port, dst_port, ip_protocol, timestamp, data, raw_packet) VALUES "@
}

/// Placeholder `$k` of column `j` of row `i`, with its separating comma.
pub open spec fn column_placeholder(i: nat, j: nat) -> Seq<char> {
    "$"@ + decimal(11 * i + j + 1) + (if j < 10 { ","@ } else { Seq::empty() })
}

/// The first `k` placeholders of row `i`.
pub open spec fn row_columns(i: nat, k: nat) -> Seq<char>
    decreases k,
{
    if k == 0 {
        Seq::empty()
    } else {
        row_columns(i, (k - 1) as nat) + column_placeholder(i, (k - 1) as nat)
    }
}

/// The parameter groups of the first `n` rows, comma-separated.
pub open spec fn row_groups(n: nat) -> Seq<char>
    decreases n,
{
    if n == 0 {
        Seq::empty()
    } else {
        row_groups((n - 1) as nat) + (if n > 1 { ","@ } else { Seq::empty() }) + "("@ + row_columns(
            (n - 1) as nat,
            11,
        ) + ")"@
    }
}

/// The insert statement for `n` rows: eleven numbered placeholders per row.
pub open spec fn insert_query(n: nat) -> Seq<char> {
    insert_head() + row_groups(n)
}

impl PacketRepository {
    /// Builds the bulk insert statement for `rows` rows.
    pub fn build_bulk_insert_query(rows: usize) -> (r: String)
        requires
            rows <= 0x1000_0000_0000,
        ensures
            r@ == insert_query(rows as nat),
    {
        let mut s = String::new();
        s.append("INSERT INTO packets (src_mac, dst_mac, ether_type, src_ip, dst_ip, src_port, dst_port, ip_protocol, timestamp, data, raw_packet) VALUES ");
        let mut i: usize = 0;
        while i < rows
            invariant
                i <= rows <= 0x1000_0000_0000,
                s@ == insert_head() + row_groups(i as nat),
            decreases rows - i,
        {
            let ghost before = s@;
            if i > 0 {
                s.append(",");
            }
            s.append("(");
            let ghost open_at = s@;
            let mut j: usize = 0;
            while j < 11
                invariant
                    j <= 11,
                    i < rows <= 0x1000_0000_0000,
                    s@ == open_at + row_columns(i as nat, j as nat),
                decreases 11 - j,
            {
                s.append("$");
                assert(11 * (i as int) + (j as int) + 1 <= 11 * 0x1000_0000_0000 + 12) by (nonlinear_arith)
                    requires
                        i < 0x1000_0000_0000,
                        j <= 11,
                ;
                let k: u64 = 11 * (i as u64) + (j as u64) + 1;
                push_decimal(&mut s, k);
                if j < 10 {
                    s.append(",");
                }
                assert(s@ =~= open_at + row_columns(i as nat, (j + 1) as nat));
                j = j + 1;
            }
            s.append(")");
            assert(s@ =~= insert_head() + row_groups((i + 1) as nat));
            i = i + 1;
        }
        s
    }
}

} // verus!
