use vstd::prelude::*;

use crate::band::{band_of, frequency_band, Band};

verus! {

/// What the network list reads of a scanned Wi-Fi network.
pub struct NetworkEntry {
    pub ssid: String,
    /// Signal strength in percent, when known.
    pub strength: Option<u8>,
    /// Frequency in MHz, when known.
    pub frequency: Option<u32>,
}

/// The strength a network is ranked by; an unknown strength counts as 0.
pub open spec fn signal(n: NetworkEntry) -> int {
    match n.strength {
        Some(s) => s as int,
        None => 0,
    }
}

/// The band a network is on, if its frequency is known and in a band.
pub open spec fn entry_band(n: NetworkEntry) -> Option<Band> {
    match n.frequency {
        Some(f) => band_of(f),
        None => None,
    }
}

/// The order in which networks are listed: stronger first, and among
/// equally strong ones, in the order they were reported.
pub open spec fn listed_before(nets: Seq<NetworkEntry>, i: int, j: int) -> bool {
    ||| signal(nets[i]) > signal(nets[j])
    ||| signal(nets[i]) == signal(nets[j]) && i < j
}

/// Two reported networks are shown as one row when they have the same
/// SSID on the same band.
pub open spec fn same_row(nets: Seq<NetworkEntry>, i: int, j: int) -> bool {
    &&& nets[i].ssid@ == nets[j].ssid@
    &&& entry_band(nets[i]) == entry_band(nets[j])
}

/// `order` lists every index of `nets` once, in listing order.
pub open spec fn is_ranking(nets: Seq<NetworkEntry>, order: Seq<usize>) -> bool {
    &&& order.len() == nets.len()
    &&& forall|a: int| 0 <= a < order.len() ==> #[trigger] order[a] < nets.len()
    &&& forall|a: int, b: int|
        0 <= a < b < order.len() ==> listed_before(nets, #[trigger] order[a] as int, #[trigger] order[b] as int)
    &&& forall|i: int| 0 <= i < nets.len() ==> #[trigger] order.contains(i as usize)
}

/// Reported network `i` is shown as row `rows[a]` itself, or stands behind
/// a row of the same SSID and band that is listed before it.
pub open spec fn represented(nets: Seq<NetworkEntry>, rows: Seq<usize>, i: int) -> bool {
    exists|a: int|
        0 <= a < rows.len() && same_row(nets, #[trigger] rows[a] as int, i) && (rows[a] == i
            || listed_before(nets, rows[a] as int, i))
}

/// `rows` (indices into `nets`) is what the network list shows: in listing
/// order, one row per SSID and band, and every reported network is
/// represented (so the row kept for an SSID and band is its strongest,
/// earliest report).
pub open spec fn is_display_order(nets: Seq<NetworkEntry>, rows: Seq<usize>) -> bool {
    &&& forall|a: int| 0 <= a < rows.len() ==> #[trigger] rows[a] < nets.len()
    &&& forall|a: int, b: int|
        0 <= a < b < rows.len() ==> listed_before(nets, #[trigger] rows[a] as int, #[trigger] rows[b] as int)
    &&& forall|a: int, b: int|
        0 <= a < b < rows.len() ==> !same_row(nets, #[trigger] rows[a] as int, #[trigger] rows[b] as int)
    &&& forall|i: int| 0 <= i < nets.len() ==> #[trigger] represented(nets, rows, i)
}

fn signal_of(n: &NetworkEntry) -> (s: u8)
    ensures
        s == signal(*n),
{
    match n.strength {
        Some(s) => s,
        None => 0,
    }
}

fn band_of_entry(n: &NetworkEntry) -> (b: Option<Band>)
    ensures
        b == entry_band(*n),
{
    match n.frequency {
        Some(f) => frequency_band(f),
        None => None,
    }
}

fn same_band(x: Option<Band>, y: Option<Band>) -> (r: bool)
    ensures
        r == (x == y),
{
    match (x, y) {
        (None, None) => true,
        (Some(Band::Ghz2_4), Some(Band::Ghz2_4)) => true,
        (Some(Band::Ghz5), Some(Band::Ghz5)) => true,
        (Some(Band::Ghz6), Some(Band::Ghz6)) => true,
        _ => false,
    }
}

/// Ranks the networks: stronger first, ties kept in reported order.
fn rank_by_signal(nets: &Vec<NetworkEntry>) -> (order: Vec<usize>)
    ensures
        is_ranking(nets@, order@),
{
    let n: usize = nets.len();
    let mut order: Vec<usize> = Vec::new();
    let mut i: usize = 0;
    while i < n
        invariant
            n == nets.len(),
            i <= n,
            order.len() == i,
            forall|a: int| 0 <= a < order.len() ==> #[trigger] order[a] < i,
            forall|a: int, b: int|
                0 <= a < b < order.len() ==> listed_before(nets@, #[trigger] order[a] as int, #[trigger] order[b] as int),
            forall|j: int| 0 <= j < i ==> #[trigger] order@.contains(j as usize),
        decreases n - i,
    {
        let s: u8 = signal_of(&nets[i]);
        let mut pos: usize = 0;
        while pos < order.len() && signal_of(&nets[order[pos]]) >= s
            invariant
                n == nets.len(),
                i < n,
                pos <= order.len(),
                s == signal(nets@[i as int]),
                forall|a: int| 0 <= a < order.len() ==> #[trigger] order[a] < i,
                forall|a: int| 0 <= a < pos ==> signal(nets@[#[trigger] order[a] as int]) >= s,
            decreases order.len() - pos,
        {
            pos = pos + 1;
        }
        proof {
            // everything from `pos` on is weaker than the new network
            assert forall|a: int| pos <= a < order.len() implies signal(nets@[#[trigger] order[a] as int]) < s by {
                if a > pos {
                    assert(listed_before(nets@, order[pos as int] as int, order[a] as int));
                }
            }
        }
        let ghost old_order = order@;
        order.insert(pos, i);
        proof {
            assert forall|a: int, b: int|
                0 <= a < b < order.len() implies listed_before(nets@, #[trigger] order[a] as int, #[trigger] order[b] as int) by {
                if b < pos {
                    assert(order[a] == old_order[a] && order[b] == old_order[b]);
                } else if b == pos {
                    assert(order[a] == old_order[a]);
                } else if a < pos {
                    assert(order[a] == old_order[a] && order[b] == old_order[b - 1]);
                    assert(listed_before(nets@, old_order[a] as int, old_order[b - 1] as int));
                } else if a == pos {
                    assert(order[b] == old_order[b - 1]);
                    assert(signal(nets@[old_order[b - 1] as int]) < s);
                } else {
                    assert(order[a] == old_order[a - 1] && order[b] == old_order[b - 1]);
                    assert(listed_before(nets@, old_order[a - 1] as int, old_order[b - 1] as int));
                }
            }
            assert forall|a: int| 0 <= a < order.len() implies #[trigger] order[a] < i + 1 by {
                if a < pos {
                    assert(order[a] == old_order[a]);
                } else if a > pos {
                    assert(order[a] == old_order[a - 1]);
                }
            }
            assert forall|j: int| 0 <= j < i + 1 implies #[trigger] order@.contains(j as usize) by {
                if j == i {
                    assert(order[pos as int] == j as usize);
                } else {
                    assert(old_order.contains(j as usize));
                    let k: int = choose|k: int| 0 <= k < old_order.len() && old_order[k] == j as usize;
                    if k < pos {
                        assert(order[k] == j as usize);
                    } else {
                        assert(order[k + 1] == j as usize);
                    }
                }
            }
        }
        i = i + 1;
    }
    order
}

/// The row already shown with the same SSID and band as `nets[x]`, if any.
fn find_row(nets: &Vec<NetworkEntry>, rows: &Vec<usize>, x: usize) -> (found: Option<usize>)
    requires
        x < nets.len(),
        forall|c: int| 0 <= c < rows.len() ==> #[trigger] rows[c] < nets.len(),
    ensures
        found matches Some(c) ==> c < rows.len() && same_row(nets@, rows[c as int] as int, x as int),
        found is None ==> forall|c: int| 0 <= c < rows.len() ==> !same_row(nets@, #[trigger] rows[c] as int, x as int),
{
    let b = band_of_entry(&nets[x]);
    let mut c: usize = 0;
    while c < rows.len()
        invariant
            x < nets.len(),
            c <= rows.len(),
            b == entry_band(nets@[x as int]),
            forall|d: int| 0 <= d < rows.len() ==> #[trigger] rows[d] < nets.len(),
            forall|d: int| 0 <= d < c ==> !same_row(nets@, #[trigger] rows[d] as int, x as int),
        decreases rows.len() - c,
    {
        let y: usize = rows[c];
        if nets[y].ssid == nets[x].ssid && same_band(band_of_entry(&nets[y]), b) {
            return Some(c);
        }
        c = c + 1;
    }
    None
}

/// `rows[c]` is the ranking entry at position `pos[c]`, the positions
/// increasing and below `a`.
#[verifier::opaque]
spec fn taken_from(order: Seq<usize>, rows: Seq<usize>, pos: Seq<int>, a: int) -> bool {
    &&& pos.len() == rows.len()
    &&& forall|c: int| 0 <= c < rows.len() ==> 0 <= #[trigger] pos[c] < a
    &&& forall|c: int| 0 <= c < rows.len() ==> #[trigger] rows[c] == order[pos[c]]
    &&& forall|c: int, d: int| 0 <= c < d < rows.len() ==> #[trigger] pos[c] < #[trigger] pos[d]
}

/// No two rows have the same SSID and band.
#[verifier::opaque]
spec fn distinct_rows(nets: Seq<NetworkEntry>, rows: Seq<usize>) -> bool {
    forall|c: int, d: int|
        0 <= c < d < rows.len() ==> !same_row(nets, #[trigger] rows[c] as int, #[trigger] rows[d] as int)
}

/// Each of the first `a` ranked networks, `order[b]`, has its SSID and band
/// shown by row `rep[b]`, taken at its position or before.
#[verifier::opaque]
spec fn covered(
    nets: Seq<NetworkEntry>,
    order: Seq<usize>,
    rows: Seq<usize>,
    pos: Seq<int>,
    rep: Seq<int>,
    a: int,
) -> bool {
    &&& rep.len() == a
    &&& forall|b: int|
        0 <= b < a ==> {
            &&& 0 <= #[trigger] rep[b] < rows.len()
            &&& same_row(nets, rows[rep[b]] as int, order[b] as int)
            &&& pos[rep[b]] <= b
        }
}

proof fn lemma_take_row(
    nets: Seq<NetworkEntry>,
    order: Seq<usize>,
    rows: Seq<usize>,
    pos: Seq<int>,
    rep: Seq<int>,
    a: int,
)
    requires
        0 <= a < order.len(),
        taken_from(order, rows, pos, a),
        distinct_rows(nets, rows),
        covered(nets, order, rows, pos, rep, a),
        forall|c: int| 0 <= c < rows.len() ==> !same_row(nets, #[trigger] rows[c] as int, order[a] as int),
    ensures
        taken_from(order, rows.push(order[a]), pos.push(a), a + 1),
        distinct_rows(nets, rows.push(order[a])),
        covered(nets, order, rows.push(order[a]), pos.push(a), rep.push(rows.len() as int), a + 1),
{
    reveal(taken_from);
    reveal(distinct_rows);
    reveal(covered);
    let x: usize = order[a];
    let rows2 = rows.push(x);
    let pos2 = pos.push(a);
    let rep2 = rep.push(rows.len() as int);
    assert forall|c: int, d: int|
        0 <= c < d < rows2.len() implies !same_row(nets, #[trigger] rows2[c] as int, #[trigger] rows2[d] as int) by {
        if d == rows.len() {
            assert(rows2[c] == rows[c]);
        } else {
            assert(rows2[c] == rows[c] && rows2[d] == rows[d]);
        }
    }
    assert forall|c: int, d: int| 0 <= c < d < rows2.len() implies #[trigger] pos2[c] < #[trigger] pos2[d] by {
        if d < rows.len() {
            assert(pos2[c] == pos[c] && pos2[d] == pos[d]);
        } else {
            assert(pos2[c] == pos[c]);
        }
    }
    assert forall|c: int| 0 <= c < rows2.len() implies #[trigger] rows2[c] == order[pos2[c]] by {
        if c < rows.len() {
            assert(rows2[c] == rows[c] && pos2[c] == pos[c]);
        }
    }
    assert forall|c: int| 0 <= c < rows2.len() implies 0 <= #[trigger] pos2[c] < a + 1 by {
        if c < rows.len() {
            assert(pos2[c] == pos[c]);
        }
    }
    assert forall|b: int| 0 <= b < a + 1 implies {
        &&& 0 <= #[trigger] rep2[b] < rows2.len()
        &&& same_row(nets, rows2[rep2[b]] as int, order[b] as int)
        &&& pos2[rep2[b]] <= b
    } by {
        if b < a {
            let c: int = rep[b];
            assert(rep2[b] == c && rows2[c] == rows[c] && pos2[c] == pos[c]);
        }
    }
}

proof fn lemma_skip_row(
    nets: Seq<NetworkEntry>,
    order: Seq<usize>,
    rows: Seq<usize>,
    pos: Seq<int>,
    rep: Seq<int>,
    a: int,
    c: int,
)
    requires
        0 <= a < order.len(),
        taken_from(order, rows, pos, a),
        covered(nets, order, rows, pos, rep, a),
        0 <= c < rows.len(),
        same_row(nets, rows[c] as int, order[a] as int),
    ensures
        taken_from(order, rows, pos, a + 1),
        covered(nets, order, rows, pos, rep.push(c), a + 1),
{
    reveal(taken_from);
    reveal(covered);
    let rep2 = rep.push(c);
    assert forall|b: int| 0 <= b < a + 1 implies {
        &&& 0 <= #[trigger] rep2[b] < rows.len()
        &&& same_row(nets, rows[rep2[b]] as int, order[b] as int)
        &&& pos[rep2[b]] <= b
    } by {
        if b < a {
            assert(rep2[b] == rep[b]);
        }
    }
}

proof fn lemma_rows_complete(
    nets: Seq<NetworkEntry>,
    order: Seq<usize>,
    rows: Seq<usize>,
    pos: Seq<int>,
    rep: Seq<int>,
)
    requires
        nets.len() <= usize::MAX,
        is_ranking(nets, order),
        taken_from(order, rows, pos, order.len() as int),
        distinct_rows(nets, rows),
        covered(nets, order, rows, pos, rep, order.len() as int),
    ensures
        is_display_order(nets, rows),
{
    reveal(taken_from);
    reveal(distinct_rows);
    reveal(covered);
    assert forall|c: int| 0 <= c < rows.len() implies #[trigger] rows[c] < nets.len() by {
        assert(rows[c] == order[pos[c]]);
    }
    assert forall|c: int, d: int|
        0 <= c < d < rows.len() implies listed_before(nets, #[trigger] rows[c] as int, #[trigger] rows[d] as int) by {
        assert(order[pos[c]] == rows[c] && order[pos[d]] == rows[d]);
    }
    assert forall|i: int| 0 <= i < nets.len() implies #[trigger] represented(nets, rows, i) by {
        assert(order.contains(i as usize));
        let b: int = choose|b: int| 0 <= b < order.len() && order[b] == i as usize;
        let c: int = rep[b];
        if pos[c] < b {
            assert(listed_before(nets, order[pos[c]] as int, order[b] as int));
        }
        assert(same_row(nets, rows[c] as int, i));
    }
}

/// Keeps, from a ranking, the first network of each SSID and band.
fn keep_first_of_each_row(nets: &Vec<NetworkEntry>, order: &Vec<usize>) -> (rows: Vec<usize>)
    requires
        is_ranking(nets@, order@),
    ensures
        is_display_order(nets@, rows@),
{
    let mut rows: Vec<usize> = Vec::new();
    let ghost mut pos: Seq<int> = Seq::empty();
    let ghost mut rep: Seq<int> = Seq::empty();
    let mut a: usize = 0;
    proof {
        reveal(taken_from);
        reveal(distinct_rows);
        reveal(covered);
    }
    while a < order.len()
        invariant
            is_ranking(nets@, order@),
            a <= order.len(),
            taken_from(order@, rows@, pos, a as int),
            distinct_rows(nets@, rows@),
            covered(nets@, order@, rows@, pos, rep, a as int),
            forall|c: int| 0 <= c < rows.len() ==> #[trigger] rows[c] < nets.len(),
        decreases order.len() - a,
    {
        let x: usize = order[a];
        match find_row(nets, &rows, x) {
            None => {
                proof {
                    lemma_take_row(nets@, order@, rows@, pos, rep, a as int);
                    rep = rep.push(rows.len() as int);
                    pos = pos.push(a as int);
                }
                rows.push(x);
            },
            Some(c) => {
                proof {
                    lemma_skip_row(nets@, order@, rows@, pos, rep, a as int, c as int);
                    rep = rep.push(c as int);
                }
            },
        }
        a = a + 1;
    }
    proof {
        lemma_rows_complete(nets@, order@, rows@, pos, rep);
    }
    rows
}

/// The rows of the network list, as indices into `nets`: networks ranked
/// by strength (unknown counts as 0, ties in reported order), and of
/// several reports with the same SSID on the same band only the first in
/// that ranking.
pub fn network_display_order(nets: &Vec<NetworkEntry>) -> (rows: Vec<usize>)
    ensures
        is_display_order(nets@, rows@),
        forall|a: int, b: int|
            #![trigger rows@[a], rows@[b]]
            0 <= a < b < rows.len() ==> {
                let sa = match nets@[rows@[a] as int].strength {
                    Some(x) => x as int,
                    None => 0,
                };
                let sb = match nets@[rows@[b] as int].strength {
                    Some(x) => x as int,
                    None => 0,
                };
                sa > sb || (sa == sb && rows@[a] < rows@[b])
            },
{
    let order = rank_by_signal(nets);
    let rows = keep_first_of_each_row(nets, &order);
    proof {
        stronger_networks_listed_first(nets@, rows@);
    }
    rows
}

/// The list is ordered by strength in percent (an unknown strength counts
/// as 0): of two rows, the one with the greater strength comes first, and
/// of two equally strong ones, the one reported first comes first. So a
/// row is never listed after a weaker one.
pub proof fn stronger_networks_listed_first(nets: Seq<NetworkEntry>, rows: Seq<usize>)
    requires
        is_display_order(nets, rows),
    ensures
        forall|a: int, b: int|
            #![trigger rows[a], rows[b]]
            0 <= a < b < rows.len() ==> {
                let sa = match nets[rows[a] as int].strength {
                    Some(x) => x as int,
                    None => 0,
                };
                let sb = match nets[rows[b] as int].strength {
                    Some(x) => x as int,
                    None => 0,
                };
                sa > sb || (sa == sb && rows[a] < rows[b])
            },
        forall|a: int, b: int|
            #![trigger rows[a], rows[b]]
            0 <= a < rows.len() && 0 <= b < rows.len() && (match nets[rows[a] as int].strength {
                Some(x) => x as int,
                None => 0,
            }) > (match nets[rows[b] as int].strength {
                Some(x) => x as int,
                None => 0,
            }) ==> a < b,
{
    assert forall|a: int, b: int|
        #![trigger rows[a], rows[b]]
        0 <= a < rows.len() && 0 <= b < rows.len() && (match nets[rows[a] as int].strength {
            Some(x) => x as int,
            None => 0,
        }) > (match nets[rows[b] as int].strength {
            Some(x) => x as int,
            None => 0,
        }) implies a < b by {
        if b < a {
            assert(listed_before(nets, rows[b] as int, rows[a] as int));
        } else if a == b {
        }
    }
}

/// The row shown for an SSID and band is its strongest report (the
/// earliest of equally strong ones), and it is the only row for that
/// SSID and band.
pub proof fn shown_row_is_strongest_report(nets: Seq<NetworkEntry>, rows: Seq<usize>, a: int, i: int)
    requires
        is_display_order(nets, rows),
        0 <= a < rows.len(),
        0 <= i < nets.len(),
        same_row(nets, rows[a] as int, i),
    ensures
        rows[a] == i || listed_before(nets, rows[a] as int, i),
        forall|b: int| 0 <= b < rows.len() && same_row(nets, #[trigger] rows[b] as int, i) ==> b == a,
        (match nets[i].strength {
            Some(x) => x as int,
            None => 0,
        }) <= (match nets[rows[a] as int].strength {
            Some(x) => x as int,
            None => 0,
        }),
{
    assert(represented(nets, rows, i));
    let c: int = choose|c: int|
        0 <= c < rows.len() && same_row(nets, #[trigger] rows[c] as int, i) && (rows[c] == i
            || listed_before(nets, rows[c] as int, i));
    assert forall|b: int| 0 <= b < rows.len() && same_row(nets, #[trigger] rows[b] as int, i) implies b == a by {
        if b < a {
            assert(!same_row(nets, rows[b] as int, rows[a] as int));
        } else if a < b {
            assert(!same_row(nets, rows[a] as int, rows[b] as int));
        }
    }
    assert(c == a);
}

/// Two row lists in listing order with the same rows are the same list.
proof fn lemma_same_rows_same_order(nets: Seq<NetworkEntry>, r1: Seq<usize>, r2: Seq<usize>)
    requires
        forall|a: int, b: int|
            0 <= a < b < r1.len() ==> listed_before(nets, #[trigger] r1[a] as int, #[trigger] r1[b] as int),
        forall|a: int, b: int|
            0 <= a < b < r2.len() ==> listed_before(nets, #[trigger] r2[a] as int, #[trigger] r2[b] as int),
        forall|x: usize| r1.contains(x) <==> r2.contains(x),
    ensures
        r1 == r2,
    decreases r1.len(),
{
    if r1.len() == 0 {
        if r2.len() > 0 {
            assert(r2.contains(r2[0]));
        }
        assert(r1 =~= r2);
    } else {
        assert(r1.contains(r1[0]));
        let c: int = choose|c: int| 0 <= c < r2.len() && r2[c] == r1[0];
        assert(r2.contains(r2[0]));
        let d: int = choose|d: int| 0 <= d < r1.len() && r1[d] == r2[0];
        if c > 0 && d > 0 {
            assert(listed_before(nets, r2[0] as int, r2[c] as int));
            assert(listed_before(nets, r1[0] as int, r1[d] as int));
        } else if c > 0 {
            assert(listed_before(nets, r2[0] as int, r2[c] as int));
        } else if d > 0 {
            assert(listed_before(nets, r1[0] as int, r1[d] as int));
        }
        assert(r1[0] == r2[0]);
        let t1 = r1.drop_first();
        let t2 = r2.drop_first();
        assert forall|x: usize| t1.contains(x) implies t2.contains(x) by {
            let k: int = choose|k: int| 0 <= k < t1.len() && t1[k] == x;
            assert(r1[k + 1] == x);
            assert(listed_before(nets, r1[0] as int, r1[k + 1] as int));
            assert(r2.contains(x));
            let m: int = choose|m: int| 0 <= m < r2.len() && r2[m] == x;
            assert(m != 0);
            assert(t2[m - 1] == x);
        }
        assert forall|x: usize| t2.contains(x) implies t1.contains(x) by {
            let k: int = choose|k: int| 0 <= k < t2.len() && t2[k] == x;
            assert(r2[k + 1] == x);
            assert(listed_before(nets, r2[0] as int, r2[k + 1] as int));
            assert(r1.contains(x));
            let m: int = choose|m: int| 0 <= m < r1.len() && r1[m] == x;
            assert(m != 0);
            assert(t1[m - 1] == x);
        }
        assert forall|a: int, b: int|
            0 <= a < b < t1.len() implies listed_before(nets, #[trigger] t1[a] as int, #[trigger] t1[b] as int) by {
            assert(t1[a] == r1[a + 1] && t1[b] == r1[b + 1]);
        }
        assert forall|a: int, b: int|
            0 <= a < b < t2.len() implies listed_before(nets, #[trigger] t2[a] as int, #[trigger] t2[b] as int) by {
            assert(t2[a] == r2[a + 1] && t2[b] == r2[b + 1]);
        }
        lemma_same_rows_same_order(nets, t1, t2);
        assert(r1 =~= seq![r1[0]] + t1);
        assert(r2 =~= seq![r2[0]] + t2);
    }
}

/// A row shown in one display order is shown in any other.
proof fn lemma_rows_shared(nets: Seq<NetworkEntry>, r1: Seq<usize>, r2: Seq<usize>, a: int)
    requires
        is_display_order(nets, r1),
        is_display_order(nets, r2),
        0 <= a < r1.len(),
    ensures
        r2.contains(r1[a]),
{
    let x: int = r1[a] as int;
    assert(represented(nets, r2, x));
    let c: int = choose|c: int|
        0 <= c < r2.len() && same_row(nets, #[trigger] r2[c] as int, x) && (r2[c] == x
            || listed_before(nets, r2[c] as int, x));
    let y: int = r2[c] as int;
    shown_row_is_strongest_report(nets, r1, a, y);
    assert(r2.contains(r2[c]));
}

/// The contract of `network_display_order` fixes the list: two lists that
/// both meet it are the same.
pub proof fn display_order_is_unique(nets: Seq<NetworkEntry>, r1: Seq<usize>, r2: Seq<usize>)
    requires
        is_display_order(nets, r1),
        is_display_order(nets, r2),
    ensures
        r1 == r2,
{
    assert forall|x: usize| r1.contains(x) <==> r2.contains(x) by {
        if r1.contains(x) {
            let a: int = choose|a: int| 0 <= a < r1.len() && r1[a] == x;
            lemma_rows_shared(nets, r1, r2, a);
        }
        if r2.contains(x) {
            let a: int = choose|a: int| 0 <= a < r2.len() && r2[a] == x;
            lemma_rows_shared(nets, r2, r1, a);
        }
    }
    lemma_same_rows_same_order(nets, r1, r2);
}

/// One row per SSID and band, and none lost: two rows never have both the
/// same SSID and the same band (the band of a frequency being 2.4 GHz for
/// 2400..=2500 MHz, 5 GHz for 5150..=5925 MHz, 6 GHz for 5926..=7125 MHz,
/// none otherwise or when unknown), and every reported network has a row
/// with its SSID and band that is at least as strong.
pub proof fn one_row_per_ssid_and_band(nets: Seq<NetworkEntry>, rows: Seq<usize>)
    requires
        is_display_order(nets, rows),
    ensures
        forall|a: int, b: int|
            #![trigger rows[a], rows[b]]
            0 <= a < b < rows.len() ==> nets[rows[a] as int].ssid@ != nets[rows[b] as int].ssid@
                || frequency_band_of(nets[rows[a] as int].frequency) != frequency_band_of(
                nets[rows[b] as int].frequency,
            ),
        forall|i: int|
            #![trigger nets[i]]
            0 <= i < nets.len() ==> exists|a: int|
                0 <= a < rows.len() && nets[#[trigger] rows[a] as int].ssid@ == nets[i].ssid@
                    && frequency_band_of(nets[rows[a] as int].frequency) == frequency_band_of(
                    nets[i].frequency,
                ) && (match nets[i].strength {
                    Some(x) => x as int,
                    None => 0,
                }) <= (match nets[rows[a] as int].strength {
                    Some(x) => x as int,
                    None => 0,
                }),
{
    assert forall|a: int, b: int|
        #![trigger rows[a], rows[b]]
        0 <= a < b < rows.len() implies nets[rows[a] as int].ssid@ != nets[rows[b] as int].ssid@
            || frequency_band_of(nets[rows[a] as int].frequency) != frequency_band_of(
            nets[rows[b] as int].frequency,
        ) by {
        assert(!same_row(nets, rows[a] as int, rows[b] as int));
        lemma_band_of_entry(nets[rows[a] as int]);
        lemma_band_of_entry(nets[rows[b] as int]);
    }
    assert forall|i: int|
        #![trigger nets[i]]
        0 <= i < nets.len() implies exists|a: int|
        0 <= a < rows.len() && nets[#[trigger] rows[a] as int].ssid@ == nets[i].ssid@ && frequency_band_of(
            nets[rows[a] as int].frequency,
        ) == frequency_band_of(nets[i].frequency) && (match nets[i].strength {
            Some(x) => x as int,
            None => 0,
        }) <= (match nets[rows[a] as int].strength {
            Some(x) => x as int,
            None => 0,
        }) by {
        assert(represented(nets, rows, i));
        let a: int = choose|a: int|
            0 <= a < rows.len() && same_row(nets, #[trigger] rows[a] as int, i) && (rows[a] == i
                || listed_before(nets, rows[a] as int, i));
        lemma_band_of_entry(nets[rows[a] as int]);
        lemma_band_of_entry(nets[i]);
        shown_row_is_strongest_report(nets, rows, a, i);
    }
}

/// The band of a frequency in MHz, when known: 2.4 GHz for 2400..=2500,
/// 5 GHz for 5150..=5925, 6 GHz for 5926..=7125, none otherwise.
pub open spec fn frequency_band_of(freq: Option<u32>) -> Option<Band> {
    match freq {
        Some(f) => if 2400 <= f <= 2500 {
            Some(Band::Ghz2_4)
        } else if 5150 <= f <= 5925 {
            Some(Band::Ghz5)
        } else if 5926 <= f <= 7125 {
            Some(Band::Ghz6)
        } else {
            None
        },
        None => None,
    }
}

proof fn lemma_band_of_entry(n: NetworkEntry)
    ensures
        entry_band(n) == frequency_band_of(n.frequency),
{
    if let Some(f) = n.frequency {
        crate::band::bands_are_whole_ranges(f);
    }
}

} // verus!
