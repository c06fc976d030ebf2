use vstd::prelude::*;
use vstd::string::StringSliceAdditionalSpecFns;

verus! {

/// The value of a hexadecimal digit, or -1 for any other byte.
pub open spec fn hex_digit_value(c: u8) -> int {
    if 0x30 <= c <= 0x39 {
        c - 0x30
    } else if 0x61 <= c <= 0x66 {
        c - 0x61 + 10
    } else if 0x41 <= c <= 0x46 {
        c - 0x41 + 10
    } else {
        -1
    }
}

/// Every byte of `d` is a hexadecimal digit.
pub open spec fn all_hex(d: Seq<u8>) -> bool {
    forall|i: int| 0 <= i < d.len() ==> hex_digit_value(#[trigger] d[i]) >= 0
}

/// The number that the hexadecimal digits `d` write.
pub open spec fn hex_value(d: Seq<u8>) -> int
    decreases d.len(),
{
    if d.len() == 0 {
        0
    } else {
        hex_value(d.drop_last()) * 16 + hex_digit_value(d.last())
    }
}

/// The byte that one piece writes: an optional `+`, then at least one
/// hexadecimal digit, for a value of at most 255.
pub open spec fn hex_byte(piece: Seq<u8>) -> Option<u8> {
    let d = if piece.len() > 0 && piece[0] == 0x2b {
        piece.drop_first()
    } else {
        piece
    };
    if d.len() > 0 && all_hex(d) && hex_value(d) <= 255 {
        Some(hex_value(d) as u8)
    } else {
        None
    }
}

/// The pieces of `b` between colons; there is always at least one.
pub open spec fn colon_pieces(b: Seq<u8>) -> Seq<Seq<u8>>
    decreases b.len(),
{
    if b.len() == 0 {
        seq![seq![]]
    } else {
        let ps = colon_pieces(b.drop_last());
        if b.last() == 0x3a {
            ps.push(seq![])
        } else {
            ps.update(ps.len() - 1, ps.last().push(b.last()))
        }
    }
}

/// The bytes that colon-separated hexadecimal text such as `21:01:ff` writes,
/// or `None` if any piece writes no byte.
pub open spec fn raw_command_bytes(b: Seq<u8>) -> Option<Seq<u8>> {
    let ps = colon_pieces(b);
    if forall|i: int| 0 <= i < ps.len() ==> (#[trigger] hex_byte(ps[i])) is Some {
        Some(Seq::new(ps.len(), |i: int| hex_byte(ps[i]).unwrap()))
    } else {
        None
    }
}

proof fn lemma_colon_pieces_nonempty(b: Seq<u8>)
    ensures
        colon_pieces(b).len() >= 1,
    decreases b.len(),
{
    if b.len() > 0 {
        lemma_colon_pieces_nonempty(b.drop_last());
    }
}

/// The pieces finished before position `i` stay finished in the whole text.
proof fn lemma_colon_pieces_prefix(b: Seq<u8>, i: int)
    requires
        0 <= i <= b.len(),
    ensures
        colon_pieces(b.take(i)).len() <= colon_pieces(b).len(),
        forall|k: int|
            0 <= k < colon_pieces(b.take(i)).len() - 1 ==> #[trigger] colon_pieces(b)[k] == colon_pieces(
                b.take(i),
            )[k],
    decreases b.len() - i,
{
    lemma_colon_pieces_nonempty(b.take(i));
    if i < b.len() {
        lemma_colon_pieces_prefix(b, i + 1);
        let t = b.take(i + 1);
        assert(t.drop_last() =~= b.take(i));
        lemma_colon_pieces_nonempty(t);
    } else {
        assert(b.take(i) =~= b);
    }
}

proof fn lemma_hex_value_bounds(d: Seq<u8>)
    requires
        all_hex(d),
    ensures
        hex_value(d) >= 0,
        d.len() > 0 ==> hex_value(d) >= hex_value(d.drop_last()),
    decreases d.len(),
{
    if d.len() > 0 {
        assert(all_hex(d.drop_last())) by {
            assert forall|i: int| 0 <= i < d.drop_last().len() implies hex_digit_value(
                #[trigger] d.drop_last()[i],
            ) >= 0 by {
                assert(d.drop_last()[i] == d[i]);
            }
        }
        lemma_hex_value_bounds(d.drop_last());
        assert(hex_digit_value(d[d.len() - 1]) >= 0);
    }
}

fn hex_digit(c: u8) -> (r: Option<u8>)
    ensures
        hex_digit_value(c) >= 0 ==> r == Some(hex_digit_value(c) as u8),
        hex_digit_value(c) < 0 ==> r.is_none(),
{
    if 0x30 <= c && c <= 0x39 {
        Some(c - 0x30)
    } else if 0x61 <= c && c <= 0x66 {
        Some(c - 0x61 + 10)
    } else if 0x41 <= c && c <= 0x46 {
        Some(c - 0x41 + 10)
    } else {
        None
    }
}

/// The byte that the piece `b[start..end]` writes.
fn piece_byte(b: &[u8], start: usize, end: usize) -> (r: Option<u8>)
    requires
        start <= end <= b@.len(),
    ensures
        r == hex_byte(b@.subrange(start as int, end as int)),
{
    let ghost piece = b@.subrange(start as int, end as int);
    let mut i: usize = start;
    if i < end && b[i] == 0x2b {
        i = i + 1;
    }
    let ghost d = if piece.len() > 0 && piece[0] == 0x2b {
        piece.drop_first()
    } else {
        piece
    };
    assert(d =~= b@.subrange(i as int, end as int));
    if i == end {
        return None;
    }
    let first = i;
    let mut value: u32 = 0;
    while i < end
        invariant
            first <= i <= end <= b@.len(),
            piece == b@.subrange(start as int, end as int),
            d == (if piece.len() > 0 && piece[0] == 0x2b {
                piece.drop_first()
            } else {
                piece
            }),
            d =~= b@.subrange(first as int, end as int),
            all_hex(b@.subrange(first as int, i as int)),
            value == hex_value(b@.subrange(first as int, i as int)),
            value <= 255,
        decreases end - i,
    {
        let ghost before = b@.subrange(first as int, i as int);
        let ghost after = b@.subrange(first as int, i as int + 1);
        assert(after.drop_last() =~= before);
        let digit = match hex_digit(b[i]) {
            Some(v) => v,
            None => {
                proof {
                    assert(d[i - first] == b@[i as int]);
                    assert(hex_digit_value(d[i - first]) < 0);
                    assert(!all_hex(d));
                    assert(hex_byte(piece) is None);
                }
                return None;
            },
        };
        assert(all_hex(after)) by {
            assert forall|k: int| 0 <= k < after.len() implies hex_digit_value(#[trigger] after[k]) >= 0 by {
                if k < after.len() - 1 {
                    assert(after[k] == before[k]);
                }
            }
        }
        let next = value * 16 + digit as u32;
        assert(after.last() == b@[i as int]);
        assert(next == hex_value(after));
        if next > 255 {
            proof {
                assert(d.take((i + 1 - first) as int) =~= after);
                lemma_hex_prefix_bound(d, (i + 1 - first) as int);
                assert(all_hex(d) ==> hex_value(d) > 255);
                assert(hex_byte(piece) is None);
            }
            return None;
        }
        value = next;
        i = i + 1;
    }
    assert(b@.subrange(first as int, i as int) =~= d);
    Some(value as u8)
}

/// A number written by a prefix of some hexadecimal digits is at most the
/// number that all of them write.
proof fn lemma_hex_prefix_bound(d: Seq<u8>, k: int)
    requires
        0 <= k <= d.len(),
        all_hex(d.take(k)),
    ensures
        all_hex(d) ==> hex_value(d.take(k)) <= hex_value(d),
    decreases d.len() - k,
{
    if k < d.len() && all_hex(d) {
        assert(all_hex(d.take(k + 1))) by {
            assert forall|i: int| 0 <= i < d.take(k + 1).len() implies hex_digit_value(
                #[trigger] d.take(k + 1)[i],
            ) >= 0 by {
                assert(d.take(k + 1)[i] == d[i]);
            }
        }
        lemma_hex_prefix_bound(d, k + 1);
        assert(d.take(k + 1).drop_last() =~= d.take(k));
        lemma_hex_value_bounds(d.take(k + 1));
    } else if k == d.len() {
        assert(d.take(k) =~= d);
    }
}

/// Reads colon-separated hexadecimal bytes such as `21:01:ff`.
pub fn parse_raw_command(s: &str) -> (r: Option<Vec<u8>>)
    ensures
        match raw_command_bytes(s.spec_bytes()) {
            Some(v) => r.is_some() && r.unwrap()@ == v,
            None => r.is_none(),
        },
{
    let b = s.as_bytes();
    let ghost bs = b@;
    let mut out: Vec<u8> = Vec::new();
    let mut start: usize = 0;
    let mut i: usize = 0;
    proof {
        lemma_colon_pieces_nonempty(bs);
        assert(bs.take(0) =~= seq![]);
    }
    while i < b.len()
        invariant
            bs == b@,
            bs == s.spec_bytes(),
            start <= i <= b@.len(),
            colon_pieces(bs.take(i as int)).len() == out@.len() + 1,
            colon_pieces(bs.take(i as int)).last() == bs.subrange(start as int, i as int),
            forall|k: int| 0 <= k < out@.len() ==> hex_byte(#[trigger] colon_pieces(bs.take(i as int))[k]) == Some(out@[k]),
        decreases b@.len() - i,
    {
        let ghost t = bs.take(i as int + 1);
        assert(t.drop_last() =~= bs.take(i as int));
        if b[i] == 0x3a {
            let v = piece_byte(b, start, i);
            match v {
                Some(x) => {
                    out.push(x);
                },
                None => {
                    proof {
                        lemma_colon_pieces_prefix(bs, i as int + 1);
                        let k = out@.len() as int;
                        assert(colon_pieces(t)[k] == bs.subrange(start as int, i as int));
                        assert(colon_pieces(bs)[k] == colon_pieces(t)[k]);
                        assert(hex_byte(colon_pieces(bs)[k]) is None);
                        assert(0 <= k < colon_pieces(bs).len());
                        assert(raw_command_bytes(bs) is None);
                    }
                    return None;
                },
            }
            start = i + 1;
        } else {
            proof {
                let ps = colon_pieces(bs.take(i as int));
                assert(bs.subrange(start as int, i as int + 1) =~= ps.last().push(bs[i as int]));
            }
        }
        i = i + 1;
    }
    assert(bs.take(i as int) =~= bs);
    let v = piece_byte(b, start, i);
    match v {
        Some(x) => {
            out.push(x);
            assert(out@ =~= Seq::new(colon_pieces(bs).len(), |k: int| hex_byte(colon_pieces(bs)[k]).unwrap()));
            Some(out)
        },
        None => None,
    }
}

} // verus!
