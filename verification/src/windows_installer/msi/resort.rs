//! Reordering the rows of a table stream that is stored column by column:
//! each column's cells lie together, one after another, and every cell is a
//! little-endian integer of the column's width.
use vstd::prelude::*;
use vstd::relations::injective_on;
use vstd::set_lib::{lemma_int_range, lemma_map_size, lemma_subset_equality, set_int_range};

verus! {

/// The sum of the first `n` column widths.
pub open spec fn width_sum(widths: Seq<usize>, n: int) -> int
    decreases n,
{
    if n <= 0 {
        0
    } else {
        width_sum(widths, n - 1) + widths[n - 1]
    }
}

/// The width of one row: the sum of all column widths.
pub open spec fn row_width(widths: Seq<usize>) -> int {
    width_sum(widths, widths.len() as int)
}

/// The number of whole rows that `len` bytes hold.
pub open spec fn row_count(len: int, widths: Seq<usize>) -> int {
    if row_width(widths) == 0 {
        0
    } else {
        len / row_width(widths)
    }
}

/// Where the cell of column `c` in row `r` starts, when each column holds
/// `rows` cells.
pub open spec fn cell_start(widths: Seq<usize>, rows: int, c: int, r: int) -> int {
    rows * width_sum(widths, c) + r * widths[c]
}

/// The bytes of the cell of column `c` in row `r`.
pub open spec fn cell(data: Seq<u8>, widths: Seq<usize>, rows: int, c: int, r: int) -> Seq<u8> {
    data.subrange(cell_start(widths, rows, c, r), cell_start(widths, rows, c, r) + widths[c])
}

/// The unsigned little-endian value of some bytes.
pub open spec fn le_value(b: Seq<u8>) -> int
    decreases b.len(),
{
    if b.len() == 0 {
        0
    } else {
        b[0] + 256 * le_value(b.drop_first())
    }
}

/// `256` to the power `n`.
pub open spec fn byte_bound(n: nat) -> int
    decreases n,
{
    if n == 0 {
        1
    } else {
        256 * byte_bound((n - 1) as nat)
    }
}

proof fn lemma_le_value_bound(b: Seq<u8>)
    ensures
        0 <= le_value(b) < byte_bound(b.len()),
    decreases b.len(),
{
    if b.len() > 0 {
        lemma_le_value_bound(b.drop_first());
    }
}

proof fn lemma_byte_bound_mono(m: nat, n: nat)
    requires
        m <= n,
    ensures
        1 <= byte_bound(m) <= byte_bound(n),
    decreases n,
{
    if n > m {
        lemma_byte_bound_mono(m, (n - 1) as nat);
    } else if n > 0 {
        lemma_byte_bound_mono(0, (n - 1) as nat);
    }
}

proof fn lemma_width_sum_mono(widths: Seq<usize>, m: int, n: int)
    requires
        0 <= m <= n <= widths.len(),
    ensures
        0 <= width_sum(widths, m) <= width_sum(widths, n),
    decreases n,
{
    if n > m {
        lemma_width_sum_mono(widths, m, n - 1);
    } else if n > 0 {
        lemma_width_sum_mono(widths, 0, n - 1);
    }
}

/// The little-endian value of `width` (at most eight) bytes from `start`.
pub fn read_le(data: &[u8], start: usize, width: usize) -> (r: u64)
    requires
        start + width <= data@.len(),
        width <= 8,
    ensures
        r == le_value(data@.subrange(start as int, start + width)),
{
    let len = data.len();
    let mut value: u64 = 0;
    let mut i: usize = width;
    proof {
        assert(data@.subrange(start + width, start + width) =~= Seq::<u8>::empty());
    }
    while i > 0
        invariant
            i <= width <= 8,
            len == data@.len(),
            start + width <= data@.len(),
            value == le_value(data@.subrange(start + i, start + width)),
        decreases i,
    {
        let ghost tail = data@.subrange(start + i, start + width);
        proof {
            lemma_le_value_bound(tail);
            lemma_byte_bound_mono(tail.len(), 7);
            assert(byte_bound(7) == 0x100000000000000) by {
                reveal_with_fuel(byte_bound, 8);
            }
        }
        let byte = data[start + (i - 1)];
        value = value * 256 + byte as u64;
        i = i - 1;
        assert(data@.subrange(start + i, start + width).drop_first() =~= tail);
    }
    value
}

/// The sum of the column widths.
fn sum_widths(widths: &[usize]) -> (r: usize)
    requires
        row_width(widths@) <= usize::MAX,
    ensures
        r == row_width(widths@),
{
    let mut total: usize = 0;
    let mut i: usize = 0;
    while i < widths.len()
        invariant
            i <= widths@.len(),
            row_width(widths@) <= usize::MAX,
            total == width_sum(widths@, i as int),
        decreases widths@.len() - i,
    {
        proof {
            lemma_width_sum_mono(widths@, i + 1, widths@.len() as int);
        }
        total = total + widths[i];
        i = i + 1;
    }
    total
}

/// `a` comes before `b` in lexicographic order: at the first place where
/// they differ, `a` holds the smaller value.
pub open spec fn lex_lt(a: Seq<int>, b: Seq<int>) -> bool {
    exists|i: int|
        #![trigger a[i], b[i]]
        0 <= i < a.len() && i < b.len() && a[i] < b[i] && (forall|j: int| 0 <= j < i ==> a[j] == b[j])
}

proof fn lemma_lex_irreflexive(a: Seq<int>)
    ensures
        !lex_lt(a, a),
{
}

proof fn lemma_lex_transitive(a: Seq<int>, b: Seq<int>, c: Seq<int>)
    requires
        lex_lt(a, b),
        lex_lt(b, c),
    ensures
        lex_lt(a, c),
{
    let i = choose|i: int|
        #![trigger a[i], b[i]]
        0 <= i < a.len() && i < b.len() && a[i] < b[i] && (forall|j: int| 0 <= j < i ==> a[j] == b[j]);
    let k = choose|k: int|
        #![trigger b[k], c[k]]
        0 <= k < b.len() && k < c.len() && b[k] < c[k] && (forall|j: int| 0 <= j < k ==> b[j] == c[j]);
    let m = if i < k { i } else { k };
    assert(a[m] < c[m]);
    assert(forall|j: int| 0 <= j < m ==> a[j] == c[j]);
}

proof fn lemma_first_difference(a: Seq<int>, b: Seq<int>, n: int)
    requires
        0 <= n <= a.len(),
        a.len() == b.len(),
    ensures
        (forall|j: int| 0 <= j < n ==> a[j] == b[j]) || exists|i: int|
            #![trigger a[i], b[i]]
            0 <= i < n && a[i] != b[i] && (forall|j: int| 0 <= j < i ==> a[j] == b[j]),
    decreases n,
{
    if n > 0 {
        lemma_first_difference(a, b, n - 1);
        if forall|j: int| 0 <= j < n - 1 ==> a[j] == b[j] {
            if a[n - 1] != b[n - 1] {
                assert(a[n - 1] != b[n - 1] && (forall|j: int| 0 <= j < n - 1 ==> a[j] == b[j]));
            }
        }
    }
}

proof fn lemma_lex_total(a: Seq<int>, b: Seq<int>)
    requires
        a.len() == b.len(),
        a != b,
    ensures
        lex_lt(a, b) || lex_lt(b, a),
{
    lemma_first_difference(a, b, a.len() as int);
    if forall|j: int| 0 <= j < a.len() ==> a[j] == b[j] {
        assert(a =~= b);
    } else {
        let i = choose|i: int|
            #![trigger a[i], b[i]]
            0 <= i < a.len() && a[i] != b[i] && (forall|j: int| 0 <= j < i ==> a[j] == b[j]);
        if a[i] < b[i] {
            assert(lex_lt(a, b));
        } else {
            assert(forall|j: int| 0 <= j < i ==> b[j] == a[j]);
            assert(lex_lt(b, a));
        }
    }
}

/// How many of the elements `0..n` come before `x` under `lt`.
pub open spec fn count_before(lt: spec_fn(int, int) -> bool, x: int, n: int) -> nat
    decreases n,
{
    if n <= 0 {
        0
    } else {
        count_before(lt, x, n - 1) + if lt(n - 1, x) { 1nat } else { 0nat }
    }
}

/// `lt` is a strict total order on `0..n`.
pub open spec fn strict_total_on(lt: spec_fn(int, int) -> bool, n: int) -> bool {
    &&& forall|x: int| 0 <= x < n ==> !#[trigger] lt(x, x)
    &&& forall|x: int, y: int, z: int|
        0 <= x < n && 0 <= y < n && 0 <= z < n && #[trigger] lt(x, y) && #[trigger] lt(y, z) ==> lt(x, z)
    &&& forall|x: int, y: int| #![trigger lt(x, y)] 0 <= x < n && 0 <= y < n && x != y ==> lt(x, y) || lt(y, x)
}

/// Under an irreflexive order, fewer than `n` elements of `0..n` come
/// before an element of `0..n`.
pub proof fn lemma_count_before_bound(lt: spec_fn(int, int) -> bool, x: int, n: int)
    requires
        0 <= x < n,
        !lt(x, x),
    ensures
        count_before(lt, x, n) < n,
    decreases n,
{
    if n - 1 > x {
        lemma_count_before_bound(lt, x, n - 1);
    } else {
        lemma_count_before_at_most(lt, x, n - 1);
    }
}

proof fn lemma_count_before_at_most(lt: spec_fn(int, int) -> bool, x: int, n: int)
    requires
        0 <= n,
    ensures
        count_before(lt, x, n) <= n,
    decreases n,
{
    if n > 0 {
        lemma_count_before_at_most(lt, x, n - 1);
    }
}

proof fn lemma_count_before_less(lt: spec_fn(int, int) -> bool, x: int, y: int, m: int, n: int)
    requires
        strict_total_on(lt, m),
        0 <= x < m,
        0 <= y < m,
        lt(x, y),
        0 <= n <= m,
    ensures
        count_before(lt, x, n) + (if x < n { 1int } else { 0int }) <= count_before(lt, y, n),
    decreases n,
{
    if n > 0 {
        lemma_count_before_less(lt, x, y, m, n - 1);
        let z = n - 1;
        if lt(z, x) {
            assert(lt(z, y));
        }
        assert(!lt(x, x));
    }
}

/// Under a strict total order on `0..n`, two different elements of `0..n`
/// have different numbers of elements before them.
pub proof fn lemma_count_before_distinct(lt: spec_fn(int, int) -> bool, x: int, y: int, n: int)
    requires
        strict_total_on(lt, n),
        0 <= x < n,
        0 <= y < n,
        x != y,
    ensures
        count_before(lt, x, n) != count_before(lt, y, n),
{
    if lt(x, y) {
        lemma_count_before_less(lt, x, y, n, n);
    } else {
        assert(lt(y, x));
        lemma_count_before_less(lt, y, x, n, n);
    }
}

/// The values of the key columns of row `r`, in key order.
pub open spec fn row_key(data: Seq<u8>, widths: Seq<usize>, keys: Seq<usize>, rows: int, r: int) -> Seq<int> {
    Seq::new(keys.len(), |i: int| le_value(cell(data, widths, rows, keys[i] as int, r)))
}

/// Row `x` comes before row `y`: its key values come first in lexicographic
/// order, or they are equal and `x` comes first in the stream.
pub open spec fn row_before(data: Seq<u8>, widths: Seq<usize>, keys: Seq<usize>, rows: int, x: int, y: int) -> bool {
    lex_lt(row_key(data, widths, keys, rows, x), row_key(data, widths, keys, rows, y))
        || (row_key(data, widths, keys, rows, x) == row_key(data, widths, keys, rows, y) && x < y)
}

/// The order in which the rows are sorted.
pub open spec fn row_order(data: Seq<u8>, widths: Seq<usize>, keys: Seq<usize>, rows: int) -> spec_fn(int, int) -> bool {
    |x: int, y: int| row_before(data, widths, keys, rows, x, y)
}

/// The row at which row `x` of `data` stands once the rows are sorted: the
/// number of rows that come before it.
pub open spec fn sorted_position(data: Seq<u8>, widths: Seq<usize>, keys: Seq<usize>, x: int) -> int {
    let rows = row_count(data.len() as int, widths);
    count_before(row_order(data, widths, keys, rows), x, rows) as int
}

/// Each key names a column, whose cells are at most eight bytes wide.
pub open spec fn keys_valid(widths: Seq<usize>, keys: Seq<usize>) -> bool {
    forall|i: int| 0 <= i < keys.len() ==> keys[i] < widths.len() && #[trigger] widths[keys[i] as int] <= 8
}

/// The rows are in a strict total order.
pub proof fn lemma_row_order_total(data: Seq<u8>, widths: Seq<usize>, keys: Seq<usize>, rows: int)
    ensures
        strict_total_on(row_order(data, widths, keys, rows), rows),
{
    let lt = row_order(data, widths, keys, rows);
    assert forall|x: int| 0 <= x < rows implies !#[trigger] lt(x, x) by {
        lemma_lex_irreflexive(row_key(data, widths, keys, rows, x));
    }
    assert forall|x: int, y: int, z: int|
        0 <= x < rows && 0 <= y < rows && 0 <= z < rows && #[trigger] lt(x, y) && #[trigger] lt(y, z) implies lt(x, z) by {
        let kx = row_key(data, widths, keys, rows, x);
        let ky = row_key(data, widths, keys, rows, y);
        let kz = row_key(data, widths, keys, rows, z);
        if lex_lt(kx, ky) && lex_lt(ky, kz) {
            lemma_lex_transitive(kx, ky, kz);
        }
    }
    assert forall|x: int, y: int| #![trigger lt(x, y)] 0 <= x < rows && 0 <= y < rows && x != y implies lt(x, y) || lt(y, x) by {
        let kx = row_key(data, widths, keys, rows, x);
        let ky = row_key(data, widths, keys, rows, y);
        if kx != ky {
            lemma_lex_total(kx, ky);
        }
    }
}

/// Where each cell lies: inside its column's array, which lies inside the
/// whole rows.
proof fn lemma_cell_bounds(widths: Seq<usize>, rows: int, c: int, r: int, len: int)
    requires
        0 <= c < widths.len(),
        0 <= r < rows,
        rows * row_width(widths) <= len,
    ensures
        0 <= rows * width_sum(widths, c) <= cell_start(widths, rows, c, r),
        cell_start(widths, rows, c, r) + widths[c] <= rows * width_sum(widths, c + 1),
        rows * width_sum(widths, c + 1) <= rows * row_width(widths) <= len,
{
    let w = widths[c] as int;
    let ws = width_sum(widths, c);
    let ws1 = width_sum(widths, c + 1);
    let rw = row_width(widths);
    lemma_width_sum_mono(widths, c, c);
    lemma_width_sum_mono(widths, c + 1, widths.len() as int);
    assert(0 <= rows * ws) by (nonlinear_arith)
        requires
            0 <= rows,
            0 <= ws,
    ;
    assert(0 <= r * w && r * w + w <= rows * w) by (nonlinear_arith)
        requires
            0 <= r < rows,
            0 <= w,
    ;
    assert(rows * ws + rows * w == rows * ws1) by (nonlinear_arith)
        requires
            ws1 == ws + w,
    ;
    assert(rows * ws1 <= rows * rw) by (nonlinear_arith)
        requires
            ws1 <= rw,
            0 <= rows,
    ;
}

/// The values of integers.
pub open spec fn ints(v: Seq<u64>) -> Seq<int> {
    v.map_values(|x: u64| x as int)
}

fn key_values(data: &[u8], widths: &[usize], keys: &[usize], offsets: &Vec<usize>, rows: usize, x: usize) -> (r: Vec<u64>)
    requires
        rows * row_width(widths@) <= data@.len(),
        x < rows,
        keys_valid(widths@, keys@),
        offsets@.len() == widths@.len(),
        forall|c: int| 0 <= c < widths@.len() ==> #[trigger] offsets@[c] == rows * width_sum(widths@, c),
    ensures
        ints(r@) == row_key(data@, widths@, keys@, rows as int, x as int),
{
    let len = data.len();
    let mut out: Vec<u64> = Vec::new();
    let mut i: usize = 0;
    while i < keys.len()
        invariant
            i <= keys@.len(),
            len == data@.len(),
            rows * row_width(widths@) <= data@.len(),
            x < rows,
            keys_valid(widths@, keys@),
            offsets@.len() == widths@.len(),
            forall|c: int| 0 <= c < widths@.len() ==> #[trigger] offsets@[c] == rows * width_sum(widths@, c),
            ints(out@) == row_key(data@, widths@, keys@, rows as int, x as int).take(i as int),
        decreases keys@.len() - i,
    {
        let k = keys[i];
        assert(widths@[keys@[i as int] as int] <= 8);
        proof {
            lemma_cell_bounds(widths@, rows as int, k as int, x as int, data@.len() as int);
        }
        let start = offsets[k] + x * widths[k];
        let v = read_le(data, start, widths[k]);
        assert(start as int == cell_start(widths@, rows as int, k as int, x as int));
        assert(v as int == row_key(data@, widths@, keys@, rows as int, x as int)[i as int]);
        let ghost before = out@;
        out.push(v);
        assert(ints(out@) =~= ints(before).push(v as int));
        assert(ints(out@) =~= row_key(data@, widths@, keys@, rows as int, x as int).take(i + 1));
        i = i + 1;
    }
    assert(row_key(data@, widths@, keys@, rows as int, x as int).take(i as int) =~= row_key(
        data@,
        widths@,
        keys@,
        rows as int,
        x as int,
    ));
    out
}

fn lex_less(a: &Vec<u64>, b: &Vec<u64>) -> (r: bool)
    requires
        a@.len() == b@.len(),
    ensures
        r == lex_lt(ints(a@), ints(b@)),
{
    let mut i: usize = 0;
    while i < a.len()
        invariant
            i <= a@.len() == b@.len(),
            forall|j: int| 0 <= j < i ==> a@[j] == b@[j],
        decreases a@.len() - i,
    {
        if a[i] != b[i] {
            let ghost ia = ints(a@);
            let ghost ib = ints(b@);
            assert(forall|j: int| 0 <= j < i ==> ia[j] == ib[j]);
            if a[i] < b[i] {
                assert(ia[i as int] < ib[i as int]);
                return true;
            } else {
                assert(!lex_lt(ia, ib)) by {
                    if lex_lt(ia, ib) {
                        let k = choose|k: int|
                            #![trigger ia[k], ib[k]]
                            0 <= k < ia.len() && k < ib.len() && ia[k] < ib[k] && (forall|j: int| 0 <= j < k ==> ia[j] == ib[j]);
                        if k < i {
                            assert(ia[k] == a@[k] as int);
                            assert(a@[k] == b@[k]);
                        } else if k > i {
                            assert(ia[i as int] == ib[i as int]);
                        }
                    }
                }
                return false;
            }
        }
        i = i + 1;
    }
    assert(ints(a@) =~= ints(b@));
    false
}

fn same_values(a: &Vec<u64>, b: &Vec<u64>) -> (r: bool)
    requires
        a@.len() == b@.len(),
    ensures
        r == (ints(a@) == ints(b@)),
{
    let mut i: usize = 0;
    while i < a.len()
        invariant
            i <= a@.len() == b@.len(),
            forall|j: int| 0 <= j < i ==> a@[j] == b@[j],
        decreases a@.len() - i,
    {
        if a[i] != b[i] {
            assert(ints(a@)[i as int] != ints(b@)[i as int]);
            return false;
        }
        i = i + 1;
    }
    assert(ints(a@) =~= ints(b@));
    true
}

fn sorted_positions(data: &[u8], widths: &[usize], keys: &[usize], kvs: &Vec<Vec<u64>>, rows: usize) -> (r: Vec<usize>)
    requires
        kvs@.len() == rows,
        forall|x: int| 0 <= x < rows ==> ints(#[trigger] kvs@[x]@) == row_key(data@, widths@, keys@, rows as int, x),
    ensures
        r@.len() == rows,
        forall|x: int| 0 <= x < rows ==> #[trigger] r@[x] == count_before(row_order(data@, widths@, keys@, rows as int), x, rows as int),
{
    let ghost lt = row_order(data@, widths@, keys@, rows as int);
    let mut out: Vec<usize> = Vec::new();
    let mut x: usize = 0;
    while x < rows
        invariant
            x <= rows,
            kvs@.len() == rows,
            forall|x: int| 0 <= x < rows ==> ints(#[trigger] kvs@[x]@) == row_key(data@, widths@, keys@, rows as int, x),
            lt == row_order(data@, widths@, keys@, rows as int),
            out@.len() == x,
            forall|z: int| 0 <= z < x ==> #[trigger] out@[z] == count_before(lt, z, rows as int),
        decreases rows - x,
    {
        let mut count: usize = 0;
        let mut y: usize = 0;
        assert(ints(kvs@[x as int]@).len() == keys@.len());
        while y < rows
            invariant
                x < rows,
                y <= rows,
                kvs@.len() == rows,
                forall|x: int| 0 <= x < rows ==> ints(#[trigger] kvs@[x]@) == row_key(data@, widths@, keys@, rows as int, x),
                lt == row_order(data@, widths@, keys@, rows as int),
                count == count_before(lt, x as int, y as int),
            decreases rows - y,
        {
            proof {
                lemma_count_before_at_most(lt, x as int, y as int);
            }
            assert(ints(kvs@[y as int]@).len() == keys@.len());
            assert(kvs@[y as int]@.len() == kvs@[x as int]@.len());
            let before = lex_less(&kvs[y], &kvs[x]) || (same_values(&kvs[y], &kvs[x]) && y < x);
            if before {
                count = count + 1;
            }
            y = y + 1;
        }
        out.push(count);
        x = x + 1;
    }
    out
}

/// Column `c` of a reordered stream, new rows `0..r`: for each new row, the
/// cell of the old row that `order` names.
pub open spec fn column_gather(data: Seq<u8>, widths: Seq<usize>, rows: int, order: Seq<usize>, c: int, r: int) -> Seq<u8>
    decreases r,
{
    if r <= 0 {
        Seq::empty()
    } else {
        column_gather(data, widths, rows, order, c, r - 1) + cell(data, widths, rows, c, order[r - 1] as int)
    }
}

/// Columns `0..c` of a reordered stream.
pub open spec fn gather(data: Seq<u8>, widths: Seq<usize>, rows: int, order: Seq<usize>, c: int) -> Seq<u8>
    decreases c,
{
    if c <= 0 {
        Seq::empty()
    } else {
        gather(data, widths, rows, order, c - 1) + column_gather(data, widths, rows, order, c - 1, rows)
    }
}

/// `order` names an old row for each of the `rows` new rows.
pub open spec fn order_valid(order: Seq<usize>, rows: int) -> bool {
    order.len() == rows && forall|r: int| 0 <= r < rows ==> #[trigger] order[r] < rows
}

proof fn lemma_column_gather(
    data: Seq<u8>,
    widths: Seq<usize>,
    rows: int,
    order: Seq<usize>,
    c: int,
    r: int,
    rr: int,
    b: int,
)
    requires
        rows * row_width(widths) <= data.len(),
        0 <= c < widths.len(),
        0 <= r <= rows,
        order_valid(order, rows),
    ensures
        column_gather(data, widths, rows, order, c, r).len() == r * widths[c],
        0 <= rr < r && 0 <= b < widths[c] ==> column_gather(data, widths, rows, order, c, r)[rr * widths[c] + b]
            == data[cell_start(widths, rows, c, order[rr] as int) + b],
    decreases r,
{
    if r > 0 {
        let w = widths[c] as int;
        lemma_column_gather(data, widths, rows, order, c, r - 1, rr, b);
        lemma_cell_bounds(widths, rows, c, order[r - 1] as int, data.len() as int);
        assert((r - 1) * w + w == r * w) by (nonlinear_arith);
        if 0 <= rr < r - 1 && 0 <= b < w {
            assert(rr * w + b < (r - 1) * w) by (nonlinear_arith)
                requires
                    0 <= rr < r - 1,
                    0 <= b < w,
            ;
        }
    }
}

proof fn lemma_gather(
    data: Seq<u8>,
    widths: Seq<usize>,
    rows: int,
    order: Seq<usize>,
    cc: int,
    c: int,
    r: int,
    b: int,
)
    requires
        rows * row_width(widths) <= data.len(),
        0 <= cc <= widths.len(),
        0 <= rows,
        order_valid(order, rows),
    ensures
        gather(data, widths, rows, order, cc).len() == rows * width_sum(widths, cc),
        0 <= c < cc && 0 <= r < rows && 0 <= b < widths[c] ==> gather(data, widths, rows, order, cc)[cell_start(
            widths,
            rows,
            c,
            r,
        ) + b] == data[cell_start(widths, rows, c, order[r] as int) + b],
    decreases cc,
{
    if cc > 0 {
        let w = widths[cc - 1] as int;
        lemma_gather(data, widths, rows, order, cc - 1, c, r, b);
        lemma_column_gather(data, widths, rows, order, cc - 1, rows, r, b);
        let ws = width_sum(widths, cc - 1);
        assert(rows * ws + rows * w == rows * width_sum(widths, cc)) by (nonlinear_arith)
            requires
                width_sum(widths, cc) == ws + w,
        ;
        if c == cc - 1 && 0 <= r < rows && 0 <= b < w {
            assert(0 <= r * w + b < rows * w) by (nonlinear_arith)
                requires
                    0 <= r < rows,
                    0 <= b < w,
            ;
        }
        if 0 <= c < cc - 1 && 0 <= r < rows && 0 <= b < widths[c] {
            lemma_cell_bounds(widths, rows, c, r, data.len() as int);
            lemma_width_sum_mono(widths, c + 1, cc - 1);
            assert(rows * width_sum(widths, c + 1) <= rows * ws) by (nonlinear_arith)
                requires
                    width_sum(widths, c + 1) <= ws,
                    0 <= rows,
            ;
        }
    }
}

fn push_bytes(out: &mut Vec<u8>, data: &[u8], start: usize, end: usize)
    requires
        start <= end <= data@.len(),
    ensures
        final(out)@ == old(out)@ + data@.subrange(start as int, end as int),
{
    let ghost head = out@;
    let mut i: usize = start;
    while i < end
        invariant
            start <= i <= end <= data@.len(),
            out@ == head + data@.subrange(start as int, i as int),
        decreases end - i,
    {
        out.push(data[i]);
        assert(data@.subrange(start as int, i + 1) =~= data@.subrange(start as int, i as int).push(data@[i as int]));
        i = i + 1;
    }
}

/// Sorting sends the rows of a stream to distinct rows of the stream, and a
/// row that comes before another ends up above it.
pub proof fn lemma_sorted_positions(data: Seq<u8>, widths: Seq<usize>, keys: Seq<usize>, x: int, y: int)
    requires
        0 <= x < row_count(data.len() as int, widths),
        0 <= y < row_count(data.len() as int, widths),
    ensures
        0 <= sorted_position(data, widths, keys, x) < row_count(data.len() as int, widths),
        x != y ==> sorted_position(data, widths, keys, x) != sorted_position(data, widths, keys, y),
        row_before(data, widths, keys, row_count(data.len() as int, widths), x, y) ==> sorted_position(
            data,
            widths,
            keys,
            x,
        ) < sorted_position(data, widths, keys, y),
{
    let rows = row_count(data.len() as int, widths);
    let lt = row_order(data, widths, keys, rows);
    lemma_row_order_total(data, widths, keys, rows);
    lemma_count_before_bound(lt, x, rows);
    if x != y {
        lemma_count_before_distinct(lt, x, y, rows);
    }
    if lt(x, y) {
        lemma_count_before_less(lt, x, y, rows, rows);
    }
}

/// Every row of the stream is the sorted position of some row.
pub proof fn lemma_positions_cover(data: Seq<u8>, widths: Seq<usize>, keys: Seq<usize>, r: int)
    requires
        0 <= r < row_count(data.len() as int, widths),
    ensures
        exists|x: int| 0 <= x < row_count(data.len() as int, widths) && sorted_position(data, widths, keys, x) == r,
{
    let rows = row_count(data.len() as int, widths);
    let dom = set_int_range(0, rows);
    let f = |x: int| sorted_position(data, widths, keys, x);
    lemma_int_range(0, rows);
    assert(injective_on(f, dom)) by {
        assert forall|x: int, y: int| dom.contains(x) && dom.contains(y) && #[trigger] f(x) == #[trigger] f(y) implies x == y by {
            lemma_sorted_positions(data, widths, keys, x, y);
        }
    }
    let img = dom.map(f);
    lemma_map_size(dom, img, f);
    assert(img.subset_of(dom)) by {
        assert forall|y: int| img.contains(y) implies dom.contains(y) by {
            let x = choose|x: int| dom.contains(x) && y == f(x);
            lemma_sorted_positions(data, widths, keys, x, x);
        }
    }
    lemma_subset_equality(img, dom);
    assert(dom.contains(r));
    assert(img.contains(r));
}

/// The old row that stands at new row `r` once the rows are sorted.
pub open spec fn row_at(data: Seq<u8>, widths: Seq<usize>, keys: Seq<usize>, r: int) -> int {
    choose|x: int| 0 <= x < row_count(data.len() as int, widths) && sorted_position(data, widths, keys, x) == r
}

/// For each new row, the old row that stands there once the rows are sorted.
pub open spec fn sorted_order(data: Seq<u8>, widths: Seq<usize>, keys: Seq<usize>) -> Seq<usize> {
    Seq::new(row_count(data.len() as int, widths) as nat, |r: int| row_at(data, widths, keys, r) as usize)
}

/// A stream with its rows sorted: for each new row, the cells of the old row
/// that stands there, column by column, then zeros for the bytes past the last
/// whole row. A stream of fewer than two whole rows stays as it is.
pub open spec fn resorted(data: Seq<u8>, widths: Seq<usize>, keys: Seq<usize>) -> Seq<u8> {
    let rows = row_count(data.len() as int, widths);
    if rows <= 1 {
        data
    } else {
        gather(data, widths, rows, sorted_order(data, widths, keys), widths.len() as int) + Seq::new(
            (data.len() - rows * row_width(widths)) as nat,
            |i: int| 0u8,
        )
    }
}

proof fn lemma_rows_fit(len: int, widths: Seq<usize>)
    requires
        row_width(widths) > 0,
        0 <= len,
    ensures
        row_count(len, widths) * row_width(widths) <= len,
        0 <= row_count(len, widths),
{
    let rw = row_width(widths);
    assert((len / rw) * rw <= len && 0 <= len / rw) by (nonlinear_arith)
        requires
            rw > 0,
            0 <= len,
    ;
}

proof fn lemma_sorted_order_valid(data: Seq<u8>, widths: Seq<usize>, keys: Seq<usize>)
    requires
        data.len() <= usize::MAX,
    ensures
        order_valid(sorted_order(data, widths, keys), row_count(data.len() as int, widths)),
        forall|r: int|
            0 <= r < row_count(data.len() as int, widths) ==> sorted_position(data, widths, keys, #[trigger] row_at(data, widths, keys, r))
                == r && 0 <= row_at(data, widths, keys, r) < row_count(data.len() as int, widths),
{
    let rows = row_count(data.len() as int, widths);
    let order = sorted_order(data, widths, keys);
    assert forall|r: int| 0 <= r < rows implies sorted_position(data, widths, keys, #[trigger] row_at(data, widths, keys, r)) == r
        && 0 <= row_at(data, widths, keys, r) < rows by {
        lemma_positions_cover(data, widths, keys, r);
    }
    let rw = row_width(widths);
    let len = data.len() as int;
    lemma_width_sum_mono(widths, 0, widths.len() as int);
    if rw > 0 {
        assert(len / rw <= len) by (nonlinear_arith)
            requires
                rw > 0,
                0 <= len,
        ;
    }
    assert(rows <= len);
    assert forall|r: int| 0 <= r < rows implies #[trigger] order[r] < rows by {
        lemma_positions_cover(data, widths, keys, r);
    }
}

/// The cells of a sorted stream: new row `r` holds the old row that stands
/// there.
proof fn lemma_resorted_cells(data: Seq<u8>, widths: Seq<usize>, keys: Seq<usize>, c: int, r: int)
    requires
        data.len() <= usize::MAX,
        row_count(data.len() as int, widths) > 1,
        0 <= c < widths.len(),
        0 <= r < row_count(data.len() as int, widths),
    ensures
        resorted(data, widths, keys).len() == data.len(),
        cell(resorted(data, widths, keys), widths, row_count(data.len() as int, widths), c, r) == cell(
            data,
            widths,
            row_count(data.len() as int, widths),
            c,
            row_at(data, widths, keys, r),
        ),
{
    let rows = row_count(data.len() as int, widths);
    let order = sorted_order(data, widths, keys);
    let n = widths.len() as int;
    lemma_width_sum_mono(widths, 0, n);
    lemma_rows_fit(data.len() as int, widths);
    lemma_sorted_order_valid(data, widths, keys);
    let out = resorted(data, widths, keys);
    let g = gather(data, widths, rows, order, n);
    lemma_gather(data, widths, rows, order, n, 0, 0, 0);
    assert(g.len() == rows * row_width(widths));
    let x = row_at(data, widths, keys, r);
    lemma_cell_bounds(widths, rows, c, r, data.len() as int);
    lemma_cell_bounds(widths, rows, c, x, data.len() as int);
    lemma_width_sum_mono(widths, c + 1, n);
    assert forall|b: int| 0 <= b < widths[c] implies #[trigger] cell(out, widths, rows, c, r)[b] == cell(
        data,
        widths,
        rows,
        c,
        x,
    )[b] by {
        lemma_gather(data, widths, rows, order, n, c, r, b);
        let i = cell_start(widths, rows, c, r) + b;
        assert(0 <= i < g.len());
        assert(out[i] == g[i]);
        assert(order[r] == x as usize);
    }
    assert(cell(out, widths, rows, c, r) =~= cell(data, widths, rows, c, x));
}

proof fn lemma_count_before_index(lt: spec_fn(int, int) -> bool, x: int, n: int)
    requires
        0 <= n,
        forall|y: int| 0 <= y < n ==> (#[trigger] lt(y, x) <==> y < x),
    ensures
        count_before(lt, x, n) == if n < x { n } else if x < 0 { 0 } else { x },
    decreases n,
{
    if n > 0 {
        lemma_count_before_index(lt, x, n - 1);
    }
}

proof fn lemma_gather_identity(data: Seq<u8>, widths: Seq<usize>, rows: int, order: Seq<usize>, cc: int)
    requires
        rows * row_width(widths) <= data.len(),
        0 <= cc <= widths.len(),
        0 <= rows,
        order_valid(order, rows),
        forall|r: int| 0 <= r < rows ==> #[trigger] order[r] == r,
    ensures
        gather(data, widths, rows, order, cc) == data.take(rows * width_sum(widths, cc)),
    decreases cc,
{
    if cc > 0 {
        let c = cc - 1;
        lemma_gather_identity(data, widths, rows, order, c);
        lemma_column_identity(data, widths, rows, order, c, rows);
        lemma_gather(data, widths, rows, order, cc, 0, 0, 0);
        lemma_width_sum_mono(widths, cc, widths.len() as int);
        lemma_width_sum_mono(widths, c, cc);
        assert(rows * width_sum(widths, cc) <= rows * row_width(widths)) by (nonlinear_arith)
            requires
                width_sum(widths, cc) <= row_width(widths),
                0 <= rows,
        ;
        assert(0 <= rows * width_sum(widths, c)) by (nonlinear_arith)
            requires
                0 <= width_sum(widths, c),
                0 <= rows,
        ;
        let ws = width_sum(widths, c);
        assert(rows * ws + rows * widths[c] == rows * width_sum(widths, cc)) by (nonlinear_arith)
            requires
                width_sum(widths, cc) == ws + widths[c],
        ;
        assert(gather(data, widths, rows, order, cc) =~= data.take(rows * width_sum(widths, cc)));
    }
}

proof fn lemma_column_identity(data: Seq<u8>, widths: Seq<usize>, rows: int, order: Seq<usize>, c: int, r: int)
    requires
        rows * row_width(widths) <= data.len(),
        0 <= c < widths.len(),
        0 <= r <= rows,
        order_valid(order, rows),
        forall|q: int| 0 <= q < rows ==> #[trigger] order[q] == q,
    ensures
        column_gather(data, widths, rows, order, c, r) == data.subrange(
            rows * width_sum(widths, c),
            rows * width_sum(widths, c) + r * widths[c],
        ),
    decreases r,
{
    let start = rows * width_sum(widths, c);
    let w = widths[c] as int;
    lemma_width_sum_mono(widths, c + 1, widths.len() as int);
    lemma_width_sum_mono(widths, c, c + 1);
    assert(0 <= start && start + rows * w <= rows * row_width(widths)) by (nonlinear_arith)
        requires
            start == rows * width_sum(widths, c),
            0 <= width_sum(widths, c),
            width_sum(widths, c) + w <= row_width(widths),
            0 <= rows,
            0 <= w,
    ;
    assert(r * w <= rows * w) by (nonlinear_arith)
        requires
            0 <= r <= rows,
            0 <= w,
    ;
    if r == 0 {
        assert(r * w == 0) by (nonlinear_arith)
            requires
                r == 0,
        ;
        assert(data.subrange(start, start + r * w) =~= Seq::<u8>::empty());
    } else {
        lemma_column_identity(data, widths, rows, order, c, r - 1);
        lemma_cell_bounds(widths, rows, c, r - 1, data.len() as int);
        assert((r - 1) * w + w == r * w) by (nonlinear_arith);
        assert(column_gather(data, widths, rows, order, c, r) =~= data.subrange(start, start + r * w));
    }
}

/// Sorting a sorted stream changes nothing.
pub proof fn lemma_resorted_idempotent(data: Seq<u8>, widths: Seq<usize>, keys: Seq<usize>)
    requires
        data.len() <= usize::MAX,
        keys_valid(widths, keys),
    ensures
        resorted(resorted(data, widths, keys), widths, keys) == resorted(data, widths, keys),
{
    let rows = row_count(data.len() as int, widths);
    if rows > 1 {
        let out = resorted(data, widths, keys);
        let n = widths.len() as int;
        lemma_width_sum_mono(widths, 0, n);
        lemma_resorted_cells(data, widths, keys, 0, 0);
        assert(row_count(out.len() as int, widths) == rows);
        lemma_sorted_order_valid(data, widths, keys);
        assert forall|r: int| 0 <= r < rows implies #[trigger] row_key(out, widths, keys, rows, r) == row_key(
            data,
            widths,
            keys,
            rows,
            row_at(data, widths, keys, r),
        ) by {
            assert forall|i: int| 0 <= i < keys.len() implies row_key(out, widths, keys, rows, r)[i] == row_key(
                data,
                widths,
                keys,
                rows,
                row_at(data, widths, keys, r),
            )[i] by {
                assert(widths[keys[i] as int] <= 8);
                lemma_resorted_cells(data, widths, keys, keys[i] as int, r);
            }
            assert(row_key(out, widths, keys, rows, r) =~= row_key(data, widths, keys, rows, row_at(data, widths, keys, r)));
        }
        let lt = row_order(out, widths, keys, rows);
        let old_lt = row_order(data, widths, keys, rows);
        lemma_row_order_total(data, widths, keys, rows);
        assert forall|y: int, x: int| 0 <= y < rows && 0 <= x < rows implies (#[trigger] lt(y, x) <==> y < x) by {
            let xy = row_at(data, widths, keys, y);
            let xx = row_at(data, widths, keys, x);
            assert(row_key(out, widths, keys, rows, y) == row_key(data, widths, keys, rows, xy));
            assert(row_key(out, widths, keys, rows, x) == row_key(data, widths, keys, rows, xx));
            if y < x {
                if !old_lt(xy, xx) {
                    assert(xy != xx);
                    assert(old_lt(xx, xy));
                    lemma_sorted_positions(data, widths, keys, xx, xy);
                }
            } else if x < y {
                if !old_lt(xx, xy) {
                    assert(xy != xx);
                    assert(old_lt(xy, xx));
                    lemma_sorted_positions(data, widths, keys, xy, xx);
                } else {
                    lemma_lex_irreflexive(row_key(data, widths, keys, rows, xx));
                    if lex_lt(row_key(data, widths, keys, rows, xy), row_key(data, widths, keys, rows, xx)) {
                        if lex_lt(row_key(data, widths, keys, rows, xx), row_key(data, widths, keys, rows, xy)) {
                            lemma_lex_transitive(
                                row_key(data, widths, keys, rows, xx),
                                row_key(data, widths, keys, rows, xy),
                                row_key(data, widths, keys, rows, xx),
                            );
                        }
                    }
                }
            } else {
                lemma_lex_irreflexive(row_key(data, widths, keys, rows, xx));
            }
        }
        assert forall|x: int| 0 <= x < rows implies #[trigger] sorted_position(out, widths, keys, x) == x by {
            lemma_count_before_index(lt, x, rows);
        }
        let order = sorted_order(out, widths, keys);
        assert(out.len() == data.len());
        lemma_sorted_order_valid(out, widths, keys);
        assert forall|r: int| 0 <= r < rows implies #[trigger] order[r] == r by {
            let x = row_at(out, widths, keys, r);
            assert(sorted_position(out, widths, keys, x) == r && 0 <= x < rows);
            assert(sorted_position(out, widths, keys, x) == x);
        }
        lemma_rows_fit(data.len() as int, widths);
        lemma_gather_identity(out, widths, rows, order, n);
        lemma_gather(data, widths, rows, sorted_order(data, widths, keys), n, 0, 0, 0);
        assert(resorted(out, widths, keys) =~= out);
    }
}

/// The stream holds its rows in sorted order: each cell of old row `x`
/// stands in new row `sorted_position(x)` of its column, and the bytes past
/// the last whole row are zero.
pub open spec fn rows_resorted(data: Seq<u8>, widths: Seq<usize>, keys: Seq<usize>, out: Seq<u8>) -> bool {
    let rows = row_count(data.len() as int, widths);
    &&& forall|c: int, x: int|
        0 <= c < widths.len() && 0 <= x < rows ==> #[trigger] cell(out, widths, rows, c, sorted_position(data, widths, keys, x))
            == cell(data, widths, rows, c, x)
    &&& forall|i: int| rows * row_width(widths) <= i < out.len() ==> #[trigger] out[i] == 0u8
}

/// Sorts the rows of a table stream stored column by column, with the
/// given cell width of each column, by the values of the key columns in
/// order and then by their place in the stream. A stream of fewer than two
/// whole rows, or with rows of no width, comes back unchanged.
pub fn resort_stream(data: &[u8], widths: &[usize], keys: &[usize]) -> (r: Vec<u8>)
    requires
        row_width(widths@) <= usize::MAX,
        row_count(data@.len() as int, widths@) > 1 ==> keys_valid(widths@, keys@),
    ensures
        r@ == resorted(data@, widths@, keys@),
        r@.len() == data@.len(),
        row_count(data@.len() as int, widths@) > 1 ==> rows_resorted(data@, widths@, keys@, r@),
{
    let rw = sum_widths(widths);
    if rw == 0 {
        return vstd::slice::slice_to_vec(data);
    }
    let len = data.len();
    let rows = len / rw;
    if rows <= 1 {
        return vstd::slice::slice_to_vec(data);
    }
    assert(rows * rw <= len) by (nonlinear_arith)
        requires
            rows == len / rw,
            rw > 0,
    ;
    let ghost lt = row_order(data@, widths@, keys@, rows as int);
    let mut offsets: Vec<usize> = Vec::new();
    let mut offset: usize = 0;
    let mut c: usize = 0;
    while c < widths.len()
        invariant
            c <= widths@.len(),
            len == data@.len(),
            rw == row_width(widths@),
            rows * rw <= len,
            rows > 1,
            offsets@.len() == c,
            forall|j: int| 0 <= j < c ==> #[trigger] offsets@[j] == rows * width_sum(widths@, j),
            offset == rows * width_sum(widths@, c as int),
        decreases widths@.len() - c,
    {
        proof {
            lemma_cell_bounds(widths@, rows as int, c as int, 0, len as int);
        }
        let ghost ws = width_sum(widths@, c as int);
        assert(rows * ws + rows * widths@[c as int] == rows * width_sum(widths@, c + 1)) by (nonlinear_arith)
            requires
                width_sum(widths@, c + 1) == ws + widths@[c as int],
        ;
        offsets.push(offset);
        offset = offset + rows * widths[c];
        c = c + 1;
    }
    let mut kvs: Vec<Vec<u64>> = Vec::new();
    let mut x: usize = 0;
    while x < rows
        invariant
            x <= rows,
            rw == row_width(widths@),
            rows * rw <= data@.len(),
            keys_valid(widths@, keys@),
            offsets@.len() == widths@.len(),
            forall|j: int| 0 <= j < widths@.len() ==> #[trigger] offsets@[j] == rows * width_sum(widths@, j),
            kvs@.len() == x,
            forall|z: int| 0 <= z < x ==> ints(#[trigger] kvs@[z]@) == row_key(data@, widths@, keys@, rows as int, z),
        decreases rows - x,
    {
        kvs.push(key_values(data, widths, keys, &offsets, rows, x));
        x = x + 1;
    }
    let pos = sorted_positions(data, widths, keys, &kvs, rows);
    proof {
        lemma_row_order_total(data@, widths@, keys@, rows as int);
    }
    let mut order: Vec<usize> = Vec::new();
    let mut i: usize = 0;
    while i < rows
        invariant
            i <= rows,
            order@.len() == i,
            forall|j: int| 0 <= j < i ==> #[trigger] order@[j] == 0,
        decreases rows - i,
    {
        order.push(0);
        i = i + 1;
    }
    let mut x: usize = 0;
    while x < rows
        invariant
            x <= rows,
            rows > 1,
            lt == row_order(data@, widths@, keys@, rows as int),
            strict_total_on(lt, rows as int),
            pos@.len() == rows,
            forall|z: int| 0 <= z < rows ==> #[trigger] pos@[z] == count_before(lt, z, rows as int),
            order_valid(order@, rows as int),
            forall|z: int| 0 <= z < x ==> order@[#[trigger] pos@[z] as int] == z,
        decreases rows - x,
    {
        proof {
            lemma_count_before_bound(lt, x as int, rows as int);
        }
        let ghost prev = order@;
        order.set(pos[x], x);
        assert forall|z: int| 0 <= z < x + 1 implies order@[#[trigger] pos@[z] as int] == z by {
            if z < x {
                lemma_count_before_bound(lt, z, rows as int);
                lemma_count_before_distinct(lt, z, x as int, rows as int);
                assert(prev[pos@[z] as int] == z);
                assert(pos@[z] != pos@[x as int]);
            }
        }
        x = x + 1;
    }
    let mut out: Vec<u8> = Vec::new();
    let mut c: usize = 0;
    while c < widths.len()
        invariant
            c <= widths@.len(),
            len == data@.len(),
            rw == row_width(widths@),
            rows * rw <= len,
            offsets@.len() == widths@.len(),
            forall|j: int| 0 <= j < widths@.len() ==> #[trigger] offsets@[j] == rows * width_sum(widths@, j),
            order_valid(order@, rows as int),
            out@ == gather(data@, widths@, rows as int, order@, c as int),
        decreases widths@.len() - c,
    {
        let ghost head = out@;
        let mut r: usize = 0;
        while r < rows
            invariant
                c < widths@.len(),
                r <= rows,
                len == data@.len(),
                rw == row_width(widths@),
                rows * rw <= len,
                offsets@.len() == widths@.len(),
                forall|j: int| 0 <= j < widths@.len() ==> #[trigger] offsets@[j] == rows * width_sum(widths@, j),
                order_valid(order@, rows as int),
                out@ == head + column_gather(data@, widths@, rows as int, order@, c as int, r as int),
            decreases rows - r,
        {
            let old_row = order[r];
            proof {
                lemma_cell_bounds(widths@, rows as int, c as int, old_row as int, len as int);
            }
            let start = offsets[c] + old_row * widths[c];
            push_bytes(&mut out, data, start, start + widths[c]);
            assert(out@ =~= head + column_gather(data@, widths@, rows as int, order@, c as int, r + 1));
            r = r + 1;
        }
        c = c + 1;
    }
    proof {
        lemma_gather(data@, widths@, rows as int, order@, widths@.len() as int, 0, 0, 0);
    }
    let ghost body = out@;
    while out.len() < len
        invariant
            len == data@.len(),
            body.len() <= out@.len() <= len,
            forall|j: int| 0 <= j < body.len() ==> #[trigger] out@[j] == body[j],
            forall|j: int| body.len() <= j < out@.len() ==> #[trigger] out@[j] == 0u8,
        decreases len - out@.len(),
    {
        out.push(0u8);
    }
    proof {
        let ghost n = widths@.len() as int;
        assert(row_count(data@.len() as int, widths@) == rows);
        assert forall|r: int| 0 <= r < rows implies #[trigger] order@[r] == sorted_order(data@, widths@, keys@)[r] by {
            lemma_positions_cover(data@, widths@, keys@, r);
            let x = row_at(data@, widths@, keys@, r);
            assert(pos@[x] == r);
        }
        assert(order@ =~= sorted_order(data@, widths@, keys@));
        assert(out@ =~= resorted(data@, widths@, keys@));
        assert forall|c: int, x: int| 0 <= c < n && 0 <= x < rows implies #[trigger] cell(
            out@,
            widths@,
            rows as int,
            c,
            sorted_position(data@, widths@, keys@, x),
        ) == cell(data@, widths@, rows as int, c, x) by {
            let p = pos@[x] as int;
            lemma_count_before_bound(lt, x, rows as int);
            assert(order@[p] == x);
            lemma_cell_bounds(widths@, rows as int, c, p, len as int);
            lemma_cell_bounds(widths@, rows as int, c, x, len as int);
            lemma_width_sum_mono(widths@, c + 1, n);
            assert forall|b: int| 0 <= b < widths@[c] implies #[trigger] cell(out@, widths@, rows as int, c, p)[b]
                == cell(data@, widths@, rows as int, c, x)[b] by {
                lemma_gather(data@, widths@, rows as int, order@, n, c, p, b);
            }
            assert(cell(out@, widths@, rows as int, c, p) =~= cell(data@, widths@, rows as int, c, x));
        }
    }
    out
}

} // verus!
