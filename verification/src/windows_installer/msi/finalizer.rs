//! Putting an MSI database's table streams into the row order that Windows
//! Installer expects: rows sorted by their key columns.
use vstd::prelude::*;

use std::collections::BTreeMap;

use crate::text::{chars_of, ends_with, has_suffix, push_char, string_views};
use crate::windows_installer::msi::resort::{keys_valid, le_value, read_le, resort_stream, resorted, row_count, row_width, width_sum};

verus! {

/// The character of the MSI stream-name alphabet with value `v` (< 64):
/// digits, upper-case letters, lower-case letters, `.` and `_`.
pub open spec fn base64_char(v: int) -> char {
    if v < 10 {
        (48 + v) as char
    } else if v < 36 {
        (65 + v - 10) as char
    } else if v < 62 {
        (97 + v - 36) as char
    } else if v == 62 {
        '.'
    } else {
        '_'
    }
}

/// What one character of a stored stream name stands for: two alphabet
/// characters for a code point in `0x3800..0x4800`, one for a code point in
/// `0x4800..0x4840`, the table marker `\0` for `0x4840`, and itself otherwise.
pub open spec fn demangle_char(c: char) -> Seq<char> {
    let v = (c as u32) as int;
    if 0x3800 <= v < 0x4800 {
        seq![base64_char((v - 0x3800) % 64), base64_char(((v - 0x3800) / 64) % 64)]
    } else if 0x4800 <= v < 0x4840 {
        seq![base64_char(v - 0x4800)]
    } else if v == 0x4840 {
        seq!['\0']
    } else {
        seq![c]
    }
}

/// The readable form of a stored stream name, character by character.
pub open spec fn demangle_spec(s: Seq<char>) -> Seq<char>
    decreases s.len(),
{
    if s.len() == 0 {
        Seq::empty()
    } else {
        demangle_spec(s.drop_last()) + demangle_char(s.last())
    }
}

fn alphabet_char(v: u32) -> (r: char)
    requires
        v < 64,
    ensures
        r == base64_char(v as int),
{
    if v < 10 {
        (48u8 + v as u8) as char
    } else if v < 36 {
        (55u8 + v as u8) as char
    } else if v < 62 {
        (61u8 + v as u8) as char
    } else if v == 62 {
        '.'
    } else {
        '_'
    }
}

/// The readable form of a stored MSI stream name.
pub fn demangle_stream_name(name: &str) -> (r: String)
    ensures
        r@ == demangle_spec(name@),
{
    let chars = chars_of(name);
    let mut output = String::new();
    let mut i: usize = 0;
    while i < chars.len()
        invariant
            i <= chars@.len(),
            chars@ == name@,
            output@ == demangle_spec(name@.take(i as int)),
        decreases chars@.len() - i,
    {
        let c = chars[i];
        let value = c as u32;
        let ghost before = output@;
        if 0x3800 <= value && value < 0x4800 {
            let encoded = value - 0x3800;
            push_char(&mut output, alphabet_char(encoded % 64));
            push_char(&mut output, alphabet_char((encoded / 64) % 64));
        } else if 0x4800 <= value && value < 0x4840 {
            push_char(&mut output, alphabet_char(value - 0x4800));
        } else if value == 0x4840 {
            push_char(&mut output, '\0');
        } else {
            push_char(&mut output, c);
        }
        assert(output@ =~= before + demangle_char(c));
        assert(name@.take(i + 1).drop_last() =~= name@.take(i as int));
        i = i + 1;
    }
    assert(name@.take(i as int) =~= name@);
    output
}

/// The first place in `s` whose element satisfies `p`.
pub open spec fn first_index<T>(s: Seq<T>, p: spec_fn(T) -> bool) -> Option<int>
    decreases s.len(),
{
    if s.len() == 0 {
        None
    } else {
        match first_index(s.drop_last(), p) {
            Some(i) => Some(i),
            None => if p(s.last()) {
                Some(s.len() - 1)
            } else {
                None
            },
        }
    }
}

proof fn lemma_first_index_prefix<T>(s: Seq<T>, p: spec_fn(T) -> bool, n: int)
    requires
        0 <= n <= s.len(),
        first_index(s.take(n), p) is Some,
    ensures
        first_index(s, p) == first_index(s.take(n), p),
    decreases s.len(),
{
    if n < s.len() {
        assert(s.drop_last().take(n) =~= s.take(n));
        lemma_first_index_prefix(s.drop_last(), p, n);
    } else {
        assert(s.take(n) =~= s);
    }
}

proof fn lemma_first_index_some<T>(s: Seq<T>, p: spec_fn(T) -> bool)
    ensures
        first_index(s, p) matches Some(i) ==> 0 <= i < s.len() && p(s[i]),
        first_index(s, p) is None ==> forall|i: int| 0 <= i < s.len() ==> !p(#[trigger] s[i]),
    decreases s.len(),
{
    if s.len() > 0 {
        lemma_first_index_some(s.drop_last(), p);
        assert forall|i: int| 0 <= i < s.len() - 1 implies s.drop_last()[i] == #[trigger] s[i] by {}
    }
}

/// A stored stream name whose readable form ends with `suffix`.
pub open spec fn name_ends_with(suffix: Seq<char>) -> spec_fn(Seq<char>) -> bool {
    |name: Seq<char>| ends_with(demangle_spec(name), suffix)
}

/// The first stream whose readable name ends with `suffix`.
pub open spec fn find_stream_spec(names: Seq<Seq<char>>, suffix: Seq<char>) -> Option<int> {
    first_index(names, name_ends_with(suffix))
}

/// The first stream whose readable name ends with `suffix`.
pub fn find_stream(names: &Vec<String>, suffix: &str) -> (r: Option<usize>)
    ensures
        r matches Some(i) ==> find_stream_spec(string_views(names@), suffix@) == Some(i as int),
        r is None ==> find_stream_spec(string_views(names@), suffix@) is None,
{
    let ghost s = string_views(names@);
    let ghost p = name_ends_with(suffix@);
    let mut i: usize = 0;
    while i < names.len()
        invariant
            i <= names@.len(),
            s == string_views(names@),
            p == name_ends_with(suffix@),
            first_index(s.take(i as int), p) is None,
        decreases names@.len() - i,
    {
        let demangled = demangle_stream_name(names[i].as_str());
        assert(s.take(i + 1).drop_last() =~= s.take(i as int));
        if has_suffix(demangled.as_str(), suffix) {
            proof {
                lemma_first_index_prefix(s, p, i + 1);
            }
            return Some(i);
        }
        i = i + 1;
    }
    assert(s.take(i as int) =~= s);
    None
}

/// How wide a string reference is in the database's tables: three bytes
/// when the string pool's header marks long references, else two.
pub open spec fn string_width_spec(pool: Seq<u8>) -> int {
    if pool.len() >= 4 && (pool[3] & 0x80u8) != 0 {
        3
    } else {
        2
    }
}

/// How wide a string reference is in the database's tables.
pub fn string_width(pool: &[u8]) -> (r: usize)
    ensures
        r == string_width_spec(pool@),
{
    if pool.len() >= 4 && (pool[3] & 0x80u8) != 0 {
        3
    } else {
        2
    }
}

/// The number of string entries in a string pool: four bytes each, after a
/// four-byte header.
pub open spec fn pool_entry_count(pool: Seq<u8>) -> int {
    if pool.len() >= 4 {
        (pool.len() - 4) / 4
    } else {
        0
    }
}

/// The byte length of string entry `k`.
pub open spec fn pool_entry_len(pool: Seq<u8>, k: int) -> int {
    pool[4 + 4 * k] + 256 * pool[5 + 4 * k]
}

/// Where string `k` starts in the string data: after the strings before it.
pub open spec fn pool_entry_start(pool: Seq<u8>, k: int) -> int
    decreases k,
{
    if k <= 0 {
        0
    } else {
        pool_entry_start(pool, k - 1) + pool_entry_len(pool, k - 1)
    }
}

/// Every string of the pool starts within the string data.
pub open spec fn pool_fits(pool: Seq<u8>, data_len: int) -> bool {
    forall|k: int| 0 <= k < pool_entry_count(pool) ==> #[trigger] pool_entry_start(pool, k) <= data_len
}

/// What `String::from_utf8_lossy` makes of some bytes.
pub uninterp spec fn utf8_lossy(bytes: Seq<u8>) -> Seq<char>;

/// Reads bytes as UTF-8 text, each invalid sequence replaced by U+FFFD.
/// Trusted: the contract names the result of `String::from_utf8_lossy` and
/// states what its documentation says of valid UTF-8: it reads as the text it
/// encodes.
#[verifier::external_body]
fn lossy_text(bytes: &[u8]) -> (r: String)
    ensures
        r@ == utf8_lossy(bytes@),
        vstd::utf8::valid_utf8(bytes@) ==> r@ == vstd::utf8::decode_utf8(bytes@),
{
    String::from_utf8_lossy(bytes).into_owned()
}

/// String `k` of the pool: its bytes, cut off at the end of the string data,
/// read as UTF-8 with invalid sequences replaced.
pub open spec fn pool_string(pool: Seq<u8>, data: Seq<u8>, k: int) -> Seq<char> {
    let start = pool_entry_start(pool, k);
    let end = if start + pool_entry_len(pool, k) <= data.len() {
        start + pool_entry_len(pool, k)
    } else {
        data.len() as int
    };
    utf8_lossy(data.subrange(start, end))
}

/// The strings of the database, by their number: the empty string, then the
/// pool's strings in order.
pub open spec fn pool_strings(pool: Seq<u8>, data: Seq<u8>) -> Seq<Seq<char>> {
    seq![Seq::<char>::empty()] + Seq::new(pool_entry_count(pool) as nat, |k: int| pool_string(pool, data, k))
}

proof fn lemma_pool_start_grows(pool: Seq<u8>, k: int)
    requires
        0 <= k,
    ensures
        0 <= pool_entry_start(pool, k),
        0 <= pool_entry_len(pool, k),
    decreases k,
{
    if k > 0 {
        lemma_pool_start_grows(pool, k - 1);
    }
}

/// Whether every string of the pool starts within `data_len` bytes of
/// string data.
pub fn string_pool_fits(pool: &[u8], data_len: usize) -> (r: bool)
    ensures
        r == pool_fits(pool@, data_len as int),
{
    let count: usize = if pool.len() >= 4 { (pool.len() - 4) / 4 } else { 0 };
    let plen = pool.len();
    let mut start: usize = 0;
    let mut k: usize = 0;
    while k < count
        invariant
            count == pool_entry_count(pool@),
            plen == pool@.len(),
            k <= count,
            k < count ==> start == pool_entry_start(pool@, k as int),
            forall|j: int| 0 <= j < k ==> #[trigger] pool_entry_start(pool@, j) <= data_len,
        decreases count - k,
    {
        if start > data_len {
            return false;
        }
        proof {
            lemma_pool_start_grows(pool@, k as int);
        }
        assert(4 + 4 * k + 4 <= pool@.len()) by (nonlinear_arith)
            requires
                k < count,
                count == pool_entry_count(pool@),
        ;
        let p = 4 + 4 * k;
        let length: usize = pool[p] as usize + 256 * (pool[p + 1] as usize);
        assert(length == pool_entry_len(pool@, k as int));
        if k + 1 < count {
            if length > data_len - start {
                assert(pool_entry_start(pool@, k + 1) > data_len);
                return false;
            }
            start = start + length;
        }
        k = k + 1;
    }
    true
}

/// Whether each string of the string pool starts within the string data,
/// where both streams are present.
pub fn streams_fit(names: &Vec<String>, streams: &Vec<Vec<u8>>) -> (r: bool)
    requires
        names@.len() == streams@.len(),
    ensures
        r == finalize_fits(string_views(names@), byte_views(streams@)),
{
    let ghost nv = string_views(names@);
    match (find_stream(names, "_StringPool"), find_stream(names, "_StringData")) {
        (Some(p), Some(d)) => {
            proof {
                lemma_first_index_some(nv, name_ends_with("_StringPool"@));
                lemma_first_index_some(nv, name_ends_with("_StringData"@));
            }
            string_pool_fits(streams[p].as_slice(), streams[d].len())
        },
        _ => true,
    }
}

/// The strings of the database, from its string pool and string data.
pub fn read_pool_strings(pool: &[u8], data: &[u8]) -> (r: Vec<String>)
    requires
        pool_fits(pool@, data@.len() as int),
    ensures
        string_views(r@) == pool_strings(pool@, data@),
{
    let mut strings: Vec<String> = Vec::new();
    strings.push(String::new());
    let count: usize = if pool.len() >= 4 { (pool.len() - 4) / 4 } else { 0 };
    let len = data.len();
    let plen = pool.len();
    let mut data_offset: usize = 0;
    let mut k: usize = 0;
    while k < count
        invariant
            count == pool_entry_count(pool@),
            len == data@.len(),
            plen == pool@.len(),
            pool_fits(pool@, data@.len() as int),
            k <= count,
            k < count ==> data_offset == pool_entry_start(pool@, k as int),
            string_views(strings@) == pool_strings(pool@, data@).take(k + 1),
        decreases count - k,
    {
        assert(pool_entry_start(pool@, k as int) <= len);
        proof {
            lemma_pool_start_grows(pool@, k as int);
        }
        assert(4 + 4 * k + 4 <= pool@.len()) by (nonlinear_arith)
            requires
                k < count,
                count == pool_entry_count(pool@),
        ;
        let p = 4 + 4 * k;
        let length: usize = pool[p] as usize + 256 * (pool[p + 1] as usize);
        let end = if length <= len - data_offset { data_offset + length } else { len };
        let text = lossy_text(vstd::slice::slice_subrange(data, data_offset, end));
        assert(length == pool_entry_len(pool@, k as int));
        assert(text@ == pool_string(pool@, data@, k as int));
        let ghost before = strings@;
        strings.push(text);
        assert(string_views(strings@) =~= string_views(before).push(pool_string(pool@, data@, k as int)));
        assert(pool_strings(pool@, data@)[k + 1] == pool_string(pool@, data@, k as int));
        assert(string_views(strings@) =~= pool_strings(pool@, data@).take(k + 2));
        if k + 1 < count {
            assert(pool_entry_start(pool@, k + 1) <= len);
            data_offset = data_offset + length;
        }
        k = k + 1;
    }
    assert(pool_strings(pool@, data@).take(count + 1) =~= pool_strings(pool@, data@));
    strings
}

/// The string `text` equals.
pub open spec fn is_text(text: Seq<char>) -> spec_fn(Seq<char>) -> bool {
    |s: Seq<char>| s == text
}

/// The number of the first string equal to `text`.
pub fn string_id(strings: &Vec<String>, text: &str) -> (r: Option<usize>)
    ensures
        r matches Some(i) ==> first_index(string_views(strings@), is_text(text@)) == Some(i as int),
        r is None ==> first_index(string_views(strings@), is_text(text@)) is None,
{
    let ghost s = string_views(strings@);
    let ghost p = is_text(text@);
    let mut i: usize = 0;
    while i < strings.len()
        invariant
            i <= strings@.len(),
            s == string_views(strings@),
            p == is_text(text@),
            first_index(s.take(i as int), p) is None,
        decreases strings@.len() - i,
    {
        assert(s.take(i + 1).drop_last() =~= s.take(i as int));
        if crate::text::str_eq(strings[i].as_str(), text) {
            proof {
                lemma_first_index_prefix(s, p, i + 1);
            }
            return Some(i);
        }
        i = i + 1;
    }
    assert(s.take(i as int) =~= s);
    None
}

/// The number of rows of `_Columns`: a table reference, a column number, a
/// name reference and a type each.
pub open spec fn column_rows(columns: Seq<u8>, sw: int) -> int {
    (columns.len() as int) / (sw + 2 + sw + 2)
}

/// Field `row` of the `_Columns` array that starts at `offset` with cells
/// `width` bytes wide.
pub open spec fn column_field(columns: Seq<u8>, offset: int, row: int, width: int) -> int {
    le_value(columns.subrange(offset + row * width, offset + row * width + width))
}

/// The table, column number and column type of row `row` of `_Columns`.
pub open spec fn column_entry(columns: Seq<u8>, sw: int, row: int) -> (u64, u64, u64) {
    let n = column_rows(columns, sw);
    (
        column_field(columns, 0, row, sw) as u64,
        (column_field(columns, n * sw, row, 2) as u64) ^ 0x8000u64,
        column_field(columns, n * sw + n * 2 + n * sw, row, 2) as u64,
    )
}

/// Every row of `_Columns`.
pub open spec fn column_entries(columns: Seq<u8>, sw: int) -> Seq<(u64, u64, u64)> {
    Seq::new(column_rows(columns, sw) as nat, |row: int| column_entry(columns, sw, row))
}

proof fn lemma_field_bounds(n: int, sw: int, row: int, len: int)
    requires
        2 <= sw <= 3,
        0 <= row < n,
        n * (sw + 2 + sw + 2) <= len,
    ensures
        0 <= row * sw,
        row * sw + sw <= n * sw,
        0 <= row * 2,
        n * sw + row * 2 + 2 <= n * sw + n * 2,
        n * sw + n * 2 + n * sw + row * 2 + 2 <= len,
{
    assert(row * sw + sw <= n * sw && 0 <= row * sw) by (nonlinear_arith)
        requires
            0 <= row < n,
            2 <= sw,
    ;
    assert(n * (sw + 2 + sw + 2) == n * sw + n * 2 + n * sw + n * 2) by (nonlinear_arith);
}

/// Every row of `_Columns`: table, column number and type.
pub fn read_column_entries(columns: &[u8], sw: usize) -> (r: Vec<(u64, u64, u64)>)
    requires
        2 <= sw <= 3,
    ensures
        r@ == column_entries(columns@, sw as int),
{
    let len = columns.len();
    let n = len / (sw + 2 + sw + 2);
    assert(n * (sw + 2 + sw + 2) <= len) by (nonlinear_arith)
        requires
            n as int == (len as int) / (sw + 2 + sw + 2),
            sw >= 2,
    ;
    assert(n * sw + n * 2 + n * sw + n * 2 <= len) by (nonlinear_arith)
        requires
            n * (sw + 2 + sw + 2) <= len,
    ;
    let number_offset = n * sw;
    let type_offset = number_offset + n * 2 + n * sw;
    let mut out: Vec<(u64, u64, u64)> = Vec::new();
    let mut row: usize = 0;
    while row < n
        invariant
            2 <= sw <= 3,
            len == columns@.len(),
            n == column_rows(columns@, sw as int),
            n * (sw + 2 + sw + 2) <= len,
            number_offset == n * sw,
            type_offset == n * sw + n * 2 + n * sw,
            row <= n,
            out@ == column_entries(columns@, sw as int).take(row as int),
        decreases n - row,
    {
        proof {
            lemma_field_bounds(n as int, sw as int, row as int, len as int);
        }
        let table = read_le(columns, row * sw, sw);
        let number = read_le(columns, number_offset + row * 2, 2) ^ 0x8000u64;
        let column_type = read_le(columns, type_offset + row * 2, 2);
        out.push((table, number, column_type));
        assert(out@ =~= column_entries(columns@, sw as int).take(row + 1));
        row = row + 1;
    }
    assert(column_entries(columns@, sw as int).take(n as int) =~= column_entries(columns@, sw as int));
    out
}

/// The number and type of each column of table `id`, in `_Columns` order.
pub open spec fn columns_of(entries: Seq<(u64, u64, u64)>, id: u64) -> Seq<(u64, u64)>
    decreases entries.len(),
{
    if entries.len() == 0 {
        Seq::empty()
    } else {
        let rest = columns_of(entries.drop_last(), id);
        if entries.last().0 == id {
            rest.push((entries.last().1, entries.last().2))
        } else {
            rest
        }
    }
}

/// Where `x` goes in `t` from place `k` on when sorting by column number:
/// before the first entry with a larger number.
pub open spec fn number_slot(t: Seq<(u64, u64)>, x: (u64, u64), k: int) -> int
    decreases t.len() - k,
{
    if k < 0 || k >= t.len() {
        t.len() as int
    } else if x.0 < t[k].0 {
        k
    } else {
        number_slot(t, x, k + 1)
    }
}

/// `s` sorted by column number with a stable insertion sort.
pub open spec fn sort_by_number(s: Seq<(u64, u64)>) -> Seq<(u64, u64)>
    decreases s.len(),
{
    if s.len() == 0 {
        s
    } else {
        let t = sort_by_number(s.drop_last());
        t.insert(number_slot(t, s.last(), 0), s.last())
    }
}

proof fn lemma_number_slot(t: Seq<(u64, u64)>, x: (u64, u64), k: int)
    requires
        0 <= k <= t.len(),
    ensures
        k <= number_slot(t, x, k) <= t.len(),
        forall|m: int| k <= m < number_slot(t, x, k) ==> #[trigger] t[m].0 <= x.0,
        number_slot(t, x, k) < t.len() ==> x.0 < t[number_slot(t, x, k)].0,
    decreases t.len() - k,
{
    if k < t.len() && !(x.0 < t[k].0) {
        lemma_number_slot(t, x, k + 1);
    }
}

/// Sorting by column number orders the columns by number and keeps each of
/// them.
pub proof fn lemma_sort_by_number(s: Seq<(u64, u64)>)
    ensures
        forall|i: int, j: int| 0 <= i < j < sort_by_number(s).len() ==> #[trigger] sort_by_number(s)[i].0 <= #[trigger] sort_by_number(s)[j].0,
        sort_by_number(s).to_multiset() == s.to_multiset(),
        sort_by_number(s).len() == s.len(),
    decreases s.len(),
{
    broadcast use vstd::seq_lib::group_to_multiset_ensures;
    if s.len() > 0 {
        let t = sort_by_number(s.drop_last());
        let x = s.last();
        lemma_sort_by_number(s.drop_last());
        lemma_number_slot(t, x, 0);
        let p = number_slot(t, x, 0);
        let r = t.insert(p, x);
        vstd::seq_lib::to_multiset_insert(t, p, x);
        vstd::seq_lib::to_multiset_build(s.drop_last(), x);
        assert(s.drop_last().push(x) == s);
        assert forall|i: int, j: int| 0 <= i < j < r.len() implies #[trigger] r[i].0 <= #[trigger] r[j].0 by {
            if j < p {
                assert(r[i] == t[i] && r[j] == t[j]);
            } else if j == p {
                assert(r[i] == t[i]);
            } else if i < p {
                assert(r[i] == t[i] && r[j] == t[j - 1]);
            } else if i == p {
                assert(r[j] == t[j - 1]);
                assert(t[p].0 <= t[j - 1].0);
            } else {
                assert(r[i] == t[i - 1] && r[j] == t[j - 1]);
            }
        }
    }
}

/// `u64` keys order as the integers do, as the ordered map needs.
pub open spec fn u64_keys_ordered() -> bool {
    vstd::laws_cmp::obeys_cmp::<u64>()
}

proof fn lemma_u64_keys_ordered()
    ensures
        u64_keys_ordered(),
{
    broadcast use vstd::laws_cmp::group_laws_cmp;
}

/// The columns of every table, by the table's string id: the (number, type)
/// pairs of `_Columns`' rows for that table, in row order.
fn group_columns(entries: &Vec<(u64, u64, u64)>) -> (r: BTreeMap<u64, Vec<(u64, u64)>>)
    ensures
        forall|id: u64| #[trigger] r@.contains_key(id) ==> r@[id]@ == columns_of(entries@, id),
        forall|id: u64| !(#[trigger] r@.contains_key(id)) ==> columns_of(entries@, id).len() == 0,
{
    broadcast use vstd::std_specs::btree::group_btree_axioms;
    proof {
        lemma_u64_keys_ordered();
    }
    let mut m: BTreeMap<u64, Vec<(u64, u64)>> = BTreeMap::new();
    let mut i: usize = 0;
    while i < entries.len()
        invariant
            i <= entries@.len(),
            u64_keys_ordered(),
            forall|id: u64| #[trigger] m@.contains_key(id) ==> m@[id]@ == columns_of(entries@.take(i as int), id),
            forall|id: u64| !(#[trigger] m@.contains_key(id)) ==> columns_of(entries@.take(i as int), id).len() == 0,
        decreases entries@.len() - i,
    {
        let e = entries[i];
        let ghost before = m@;
        let mut list = match m.remove(&e.0) {
            Some(v) => v,
            None => Vec::new(),
        };
        assert(list@ == columns_of(entries@.take(i as int), e.0));
        list.push((e.1, e.2));
        m.insert(e.0, list);
        assert(entries@.take(i + 1).drop_last() =~= entries@.take(i as int));
        assert(entries@.take(i + 1).last() == e);
        assert forall|id: u64| #[trigger] m@.contains_key(id) implies m@[id]@ == columns_of(entries@.take(i + 1), id) by {
            if id != e.0 {
                assert(before.contains_key(id));
            }
        }
        assert forall|id: u64| !(#[trigger] m@.contains_key(id)) implies columns_of(entries@.take(i + 1), id).len() == 0 by {
            assert(id != e.0);
            assert(!before.contains_key(id));
        }
        i = i + 1;
    }
    assert(entries@.take(i as int) =~= entries@);
    m
}

/// The columns sorted by number, stably.
fn sort_columns(list: &Vec<(u64, u64)>) -> (r: Vec<(u64, u64)>)
    ensures
        r@ == sort_by_number(list@),
{
    let ghost s = list@;
    let mut out: Vec<(u64, u64)> = Vec::new();
    let mut i: usize = 0;
    while i < list.len()
        invariant
            s == list@,
            i <= s.len(),
            out@ == sort_by_number(s.take(i as int)),
        decreases s.len() - i,
    {
        let x = list[i];
        let ghost t = out@;
        let mut k: usize = 0;
        while k < out.len() && !(x.0 < out[k].0)
            invariant
                t == out@,
                k <= out@.len(),
                number_slot(t, x, k as int) == number_slot(t, x, 0),
            decreases out@.len() - k,
        {
            k = k + 1;
        }
        out.insert(k, x);
        assert(s.take(i + 1).drop_last() =~= s.take(i as int));
        assert(s.take(i + 1).last() == x);
        i = i + 1;
    }
    assert(s.take(i as int) =~= s);
    out
}

/// The width of a cell of a column of this type: a string reference, a
/// four-byte integer, or a two-byte integer.
pub open spec fn column_width(column_type: u64, sw: int) -> int {
    let normalized = (column_type ^ 0x8000u64) & 0xffffu64;
    if (normalized & 0x0800u64) != 0 {
        sw
    } else if (normalized & 0xffu64) == 4 {
        4
    } else {
        2
    }
}

/// A cell's width follows the column type's bits: a string column
/// (bit `0x0800`) has cells of the string width; otherwise a column whose
/// low byte is 4 holds four-byte integers and any other two-byte integers.
/// The `0x8000` flag, which the type stores inverted, plays no part.
pub proof fn lemma_column_width_bits(column_type: u64, sw: int)
    ensures
        column_type & 0x0800u64 != 0 ==> column_width(column_type, sw) == sw,
        column_type & 0x0800u64 == 0 && column_type & 0xffu64 == 4 ==> column_width(column_type, sw) == 4,
        column_type & 0x0800u64 == 0 && column_type & 0xffu64 != 4 ==> column_width(column_type, sw) == 2,
        column_width(column_type ^ 0x8000u64, sw) == column_width(column_type, sw),
{
    let t = column_type;
    assert(((t ^ 0x8000u64) & 0xffffu64) & 0x0800u64 == t & 0x0800u64) by (bit_vector);
    assert(((t ^ 0x8000u64) & 0xffffu64) & 0xffu64 == t & 0xffu64) by (bit_vector);
    assert((((t ^ 0x8000u64) ^ 0x8000u64) & 0xffffu64) & 0x0800u64 == t & 0x0800u64) by (bit_vector);
    assert((((t ^ 0x8000u64) ^ 0x8000u64) & 0xffffu64) & 0xffu64 == t & 0xffu64) by (bit_vector);
}

/// Each column of a table has the cell width its type gives; a row is as
/// wide as its cells together.
pub proof fn lemma_table_widths(cols: Seq<(u64, u64)>, sw: int, i: int)
    requires
        2 <= sw <= 3,
        0 <= i < cols.len(),
    ensures
        table_widths(cols, sw).len() == cols.len(),
        cols[i].1 & 0x0800u64 != 0 ==> table_widths(cols, sw)[i] == sw,
        cols[i].1 & 0x0800u64 == 0 && cols[i].1 & 0xffu64 == 4 ==> table_widths(cols, sw)[i] == 4,
        cols[i].1 & 0x0800u64 == 0 && cols[i].1 & 0xffu64 != 4 ==> table_widths(cols, sw)[i] == 2,
{
    lemma_column_width_bits(cols[i].1, sw);
}

/// A column of this type belongs to the table's key.
pub open spec fn column_is_key(column_type: u64) -> bool {
    ((column_type ^ 0x8000u64) & 0x2000u64) != 0
}

fn width_of(column_type: u64, sw: usize) -> (r: usize)
    ensures
        r == column_width(column_type, sw as int),
{
    let normalized = (column_type ^ 0x8000u64) & 0xffffu64;
    if (normalized & 0x0800u64) != 0 {
        sw
    } else if (normalized & 0xffu64) == 4 {
        4
    } else {
        2
    }
}

/// The cell widths of a table's columns.
pub open spec fn table_widths(cols: Seq<(u64, u64)>, sw: int) -> Seq<usize> {
    cols.map_values(|e: (u64, u64)| column_width(e.1, sw) as usize)
}

/// The places of a table's key columns, in order.
pub open spec fn table_keys(cols: Seq<(u64, u64)>) -> Seq<usize>
    decreases cols.len(),
{
    if cols.len() == 0 {
        Seq::empty()
    } else if column_is_key(cols.last().1) {
        table_keys(cols.drop_last()).push((cols.len() - 1) as usize)
    } else {
        table_keys(cols.drop_last())
    }
}

proof fn lemma_table_keys(cols: Seq<(u64, u64)>)
    requires
        cols.len() <= usize::MAX,
    ensures
        forall|i: int| 0 <= i < table_keys(cols).len() ==> #[trigger] table_keys(cols)[i] < cols.len(),
    decreases cols.len(),
{
    if cols.len() > 0 {
        let prev = table_keys(cols.drop_last());
        lemma_table_keys(cols.drop_last());
        assert forall|i: int| 0 <= i < table_keys(cols).len() implies #[trigger] table_keys(cols)[i] < cols.len() by {
            if i < prev.len() {
                assert(table_keys(cols)[i] == prev[i]);
                assert(prev[i] < cols.drop_last().len());
            }
        }
    }
}

fn layout_of(cols: &Vec<(u64, u64)>, sw: usize) -> (r: (Vec<usize>, Vec<usize>))
    requires
        cols@.len() <= usize::MAX,
    ensures
        r.0@ == table_widths(cols@, sw as int),
        r.1@ == table_keys(cols@),
{
    let mut widths: Vec<usize> = Vec::new();
    let mut keys: Vec<usize> = Vec::new();
    let mut i: usize = 0;
    while i < cols.len()
        invariant
            i <= cols@.len(),
            widths@ == table_widths(cols@.take(i as int), sw as int),
            keys@ == table_keys(cols@.take(i as int)),
        decreases cols@.len() - i,
    {
        let t = cols[i].1;
        widths.push(width_of(t, sw));
        assert(cols@.take(i + 1).drop_last() =~= cols@.take(i as int));
        if ((t ^ 0x8000u64) & 0x2000u64) != 0 {
            keys.push(i);
        }
        assert(widths@ =~= table_widths(cols@.take(i + 1), sw as int));
        i = i + 1;
    }
    assert(cols@.take(i as int) =~= cols@);
    (widths, keys)
}

/// The table that a stream holds, from its readable name: the name after the
/// `\0` marker, unless it starts with `_`, as the system tables do.
pub open spec fn user_table_name(demangled: Seq<char>) -> Option<Seq<char>> {
    if demangled.len() > 0 && demangled[0] == '\0' && !(demangled.len() > 1 && demangled[1] == '_') {
        Some(demangled.skip(1))
    } else {
        None
    }
}

fn table_name_of(demangled: &str) -> (r: Option<String>)
    ensures
        r matches Some(t) ==> user_table_name(demangled@) == Some(t@),
        r is None ==> user_table_name(demangled@) is None,
{
    let chars = chars_of(demangled);
    if chars.len() > 0 && chars[0] == '\0' && !(chars.len() > 1 && chars[1] == '_') {
        let t = crate::text::string_from_range(&chars, 1, chars.len());
        assert(t@ =~= demangled@.skip(1));
        Some(t)
    } else {
        None
    }
}

/// Why a database cannot be finalized.
#[derive(Debug, Clone, Copy, PartialEq, Eq, Structural)]
pub enum FinalizeError {
    MissingStringPool,
    MissingStringData,
    MissingColumns,
}

impl FinalizeError {
    /// The message for the error.
    pub fn to_string(&self) -> (r: String)
        ensures
            r@ == match self {
                FinalizeError::MissingStringPool => "MSI has no _StringPool"@,
                FinalizeError::MissingStringData => "MSI has no _StringData"@,
                FinalizeError::MissingColumns => "MSI has no _Columns"@,
            },
    {
        match self {
            FinalizeError::MissingStringPool => String::from_str("MSI has no _StringPool"),
            FinalizeError::MissingStringData => String::from_str("MSI has no _StringData"),
            FinalizeError::MissingColumns => String::from_str("MSI has no _Columns"),
        }
    }
}

/// The bytes of each stream.
pub open spec fn byte_views(v: Seq<Vec<u8>>) -> Seq<Seq<u8>> {
    v.map_values(|b: Vec<u8>| b@)
}

/// The streams with stream `i`, if there is one, sorted with this layout.
pub open spec fn resort_at(streams: Seq<Seq<u8>>, i: Option<int>, widths: Seq<usize>, keys: Seq<usize>) -> Seq<Seq<u8>> {
    match i {
        Some(i) => streams.update(i, resorted(streams[i], widths, keys)),
        None => streams,
    }
}

/// The cell widths of `_Tables`.
pub open spec fn tables_widths(sw: usize) -> Seq<usize> {
    seq![sw]
}

/// The cell widths of `_Columns`.
pub open spec fn columns_widths(sw: usize) -> Seq<usize> {
    seq![sw, 2, sw, 2]
}

/// The cell widths of `_Validation`.
pub open spec fn validation_widths(sw: usize) -> Seq<usize> {
    seq![sw, sw, sw, 4, 4, sw, 2, sw, sw, sw]
}

/// The streams once the system tables `_Tables`, `_Columns` and
/// `_Validation` are sorted, in that order: `_Tables` by its one column, the
/// others by their first two.
pub open spec fn after_system_tables(names: Seq<Seq<char>>, streams: Seq<Seq<u8>>, sw: usize) -> Seq<Seq<u8>> {
    let s1 = resort_at(streams, find_stream_spec(names, "_Tables"@), tables_widths(sw), seq![0usize]);
    let s2 = resort_at(s1, find_stream_spec(names, "_Columns"@), columns_widths(sw), seq![0usize, 1usize]);
    resort_at(s2, find_stream_spec(names, "_Validation"@), validation_widths(sw), seq![0usize, 1usize])
}

/// The layout of the table that stream `i` holds, when it is a table of
/// the database with key columns: its columns sorted by number, their cell
/// widths and the places of the key columns.
pub open spec fn table_layout(
    names: Seq<Seq<char>>,
    strings: Seq<Seq<char>>,
    entries: Seq<(u64, u64, u64)>,
    sw: int,
    i: int,
) -> Option<(Seq<usize>, Seq<usize>)> {
    match user_table_name(demangle_spec(names[i])) {
        None => None,
        Some(t) => match first_index(strings, is_text(t)) {
            None => None,
            Some(id) => {
                let cols = sort_by_number(columns_of(entries, id as u64));
                if table_keys(cols).len() == 0 {
                    None
                } else {
                    Some((table_widths(cols, sw), table_keys(cols)))
                }
            },
        },
    }
}

/// The streams once the tables of streams `0..n` are sorted, each by its key
/// columns.
pub open spec fn after_user_tables(
    names: Seq<Seq<char>>,
    streams: Seq<Seq<u8>>,
    strings: Seq<Seq<char>>,
    entries: Seq<(u64, u64, u64)>,
    sw: int,
    n: int,
) -> Seq<Seq<u8>>
    decreases n,
{
    if n <= 0 {
        streams
    } else {
        let s = after_user_tables(names, streams, strings, entries, sw, n - 1);
        match table_layout(names, strings, entries, sw, n - 1) {
            Some(layout) => s.update(n - 1, resorted(s[n - 1], layout.0, layout.1)),
            None => s,
        }
    }
}

/// What finalizing leaves in a database's streams: nothing changes without
/// the string pool or the string data; with both, the system tables are
/// sorted, and then, with `_Columns` present, every other table by its key
/// columns as `_Columns` describes them.
pub open spec fn finalized_streams(names: Seq<Seq<char>>, streams: Seq<Seq<u8>>) -> Seq<Seq<u8>> {
    match find_stream_spec(names, "_StringPool"@) {
        None => streams,
        Some(p) => {
            let sw = string_width_spec(streams[p]);
            match find_stream_spec(names, "_StringData"@) {
                None => streams,
                Some(d) => {
                    let strings = pool_strings(streams[p], streams[d]);
                    let s = after_system_tables(names, streams, sw as usize);
                    match find_stream_spec(names, "_Columns"@) {
                        None => s,
                        Some(c) => after_user_tables(names, s, strings, column_entries(s[c], sw), sw, names.len() as int),
                    }
                },
            }
        },
    }
}

/// Whether finalizing succeeds: it fails when the string pool, the string
/// data or `_Columns` is missing, in that order.
pub open spec fn finalize_outcome(names: Seq<Seq<char>>) -> Result<(), FinalizeError> {
    if find_stream_spec(names, "_StringPool"@) is None {
        Err(FinalizeError::MissingStringPool)
    } else if find_stream_spec(names, "_StringData"@) is None {
        Err(FinalizeError::MissingStringData)
    } else if find_stream_spec(names, "_Columns"@) is None {
        Err(FinalizeError::MissingColumns)
    } else {
        Ok(())
    }
}

/// Each string of the string pool starts within the string data, where
/// both streams are present.
pub open spec fn finalize_fits(names: Seq<Seq<char>>, streams: Seq<Seq<u8>>) -> bool {
    match (find_stream_spec(names, "_StringPool"@), find_stream_spec(names, "_StringData"@)) {
        (Some(p), Some(d)) => pool_fits(streams[p], streams[d].len() as int),
        _ => true,
    }
}

proof fn lemma_width_sum_bound(widths: Seq<usize>, n: int)
    requires
        0 <= n <= widths.len(),
        forall|i: int| 0 <= i < widths.len() ==> #[trigger] widths[i] <= 4,
    ensures
        0 <= width_sum(widths, n) <= 4 * n,
    decreases n,
{
    if n > 0 {
        lemma_width_sum_bound(widths, n - 1);
    }
}

proof fn lemma_columns_of_len(entries: Seq<(u64, u64, u64)>, id: u64)
    ensures
        columns_of(entries, id).len() <= entries.len(),
    decreases entries.len(),
{
    if entries.len() > 0 {
        lemma_columns_of_len(entries.drop_last(), id);
    }
}

/// A table's layout suits the sort: its rows fit in memory and its keys name
/// columns at most eight bytes wide.
proof fn lemma_layout_sortable(cols: Seq<(u64, u64)>, sw: int)
    requires
        2 <= sw <= 3,
        4 * cols.len() <= usize::MAX,
    ensures
        row_width(table_widths(cols, sw)) <= usize::MAX,
        keys_valid(table_widths(cols, sw), table_keys(cols)),
{
    let widths = table_widths(cols, sw);
    assert forall|i: int| 0 <= i < widths.len() implies #[trigger] widths[i] <= 4 by {}
    lemma_width_sum_bound(widths, widths.len() as int);
    lemma_table_keys(cols);
}

proof fn lemma_system_layouts(sw: usize)
    requires
        2 <= sw <= 3,
    ensures
        row_width(tables_widths(sw)) <= usize::MAX,
        keys_valid(tables_widths(sw), seq![0usize]),
        row_width(columns_widths(sw)) <= usize::MAX,
        keys_valid(columns_widths(sw), seq![0usize, 1usize]),
        row_width(validation_widths(sw)) <= usize::MAX,
        keys_valid(validation_widths(sw), seq![0usize, 1usize]),
{
    reveal_with_fuel(width_sum, 11);
}

fn resort_in_place(streams: &mut Vec<Vec<u8>>, i: usize, widths: &Vec<usize>, keys: &Vec<usize>)
    requires
        i < old(streams)@.len(),
        row_width(widths@) <= usize::MAX,
        keys_valid(widths@, keys@),
    ensures
        final(streams)@.len() == old(streams)@.len(),
        byte_views(final(streams)@) == byte_views(old(streams)@).update(
            i as int,
            resorted(old(streams)@[i as int]@, widths@, keys@),
        ),
{
    let sorted = resort_stream(streams[i].as_slice(), widths.as_slice(), keys.as_slice());
    let ghost before = streams@;
    streams.set(i, sorted);
    assert(byte_views(streams@) =~= byte_views(before).update(i as int, resorted(before[i as int]@, widths@, keys@)));
}

/// Finalizes a database's streams in place, given their stored names and
/// bytes in the order the storage lists them: sorts the rows of the system
/// tables, then of every table with key columns. Fails when the string pool,
/// the string data or `_Columns` is missing; the system tables are already
/// sorted when only `_Columns` is missing.
pub fn finalize_streams(names: &Vec<String>, streams: &mut Vec<Vec<u8>>) -> (r: Result<(), FinalizeError>)
    requires
        names@.len() == old(streams)@.len(),
        finalize_fits(string_views(names@), byte_views(old(streams)@)),
    ensures
        r == finalize_outcome(string_views(names@)),
        final(streams)@.len() == old(streams)@.len(),
        byte_views(final(streams)@) == finalized_streams(string_views(names@), byte_views(old(streams)@)),
{
    broadcast use vstd::std_specs::btree::group_btree_axioms;
    let ghost nv = string_views(names@);
    let ghost sv = byte_views(streams@);
    let ghost n0 = streams@.len();
    let pool_i = match find_stream(names, "_StringPool") {
        Some(i) => i,
        None => {
            return Err(FinalizeError::MissingStringPool);
        },
    };
    proof {
        lemma_first_index_some(nv, name_ends_with("_StringPool"@));
    }
    let sw = string_width(streams[pool_i].as_slice());
    let data_i = match find_stream(names, "_StringData") {
        Some(i) => i,
        None => {
            return Err(FinalizeError::MissingStringData);
        },
    };
    proof {
        lemma_first_index_some(nv, name_ends_with("_StringData"@));
    }
    let strings = read_pool_strings(streams[pool_i].as_slice(), streams[data_i].as_slice());
    let ghost string_specs = pool_strings(sv[pool_i as int], sv[data_i as int]);
        proof {
        lemma_system_layouts(sw);
    }
    let tables_i = find_stream(names, "_Tables");
    if let Some(t) = tables_i {
        proof {
            lemma_first_index_some(nv, name_ends_with("_Tables"@));
        }
        let widths = vec![sw];
        let keys = vec![0usize];
        assert(widths@ =~= tables_widths(sw));
        assert(keys@ =~= seq![0usize]);
        resort_in_place(streams, t, &widths, &keys);
    }
    let columns_i = find_stream(names, "_Columns");
    if let Some(t) = columns_i {
        proof {
            lemma_first_index_some(nv, name_ends_with("_Columns"@));
        }
        let widths = vec![sw, 2, sw, 2];
        let keys = vec![0usize, 1usize];
        assert(widths@ =~= columns_widths(sw));
        assert(keys@ =~= seq![0usize, 1usize]);
        resort_in_place(streams, t, &widths, &keys);
    }
    let validation_i = find_stream(names, "_Validation");
    if let Some(t) = validation_i {
        proof {
            lemma_first_index_some(nv, name_ends_with("_Validation"@));
        }
        let widths = vec![sw, sw, sw, 4, 4, sw, 2, sw, sw, sw];
        let keys = vec![0usize, 1usize];
        assert(widths@ =~= validation_widths(sw));
        assert(keys@ =~= seq![0usize, 1usize]);
        resort_in_place(streams, t, &widths, &keys);
    }
    assert(byte_views(streams@) == after_system_tables(nv, sv, sw));
    let cols_i = match columns_i {
        Some(i) => i,
        None => {
            return Err(FinalizeError::MissingColumns);
        },
    };
    proof {
        lemma_first_index_some(nv, name_ends_with("_Columns"@));
    }
    let entries = read_column_entries(streams[cols_i].as_slice(), sw);
    let ghost system = byte_views(streams@);
    assert(column_rows(system[cols_i as int], sw as int) <= system[cols_i as int].len() / 8) by (nonlinear_arith)
        requires
            2 <= sw <= 3,
            column_rows(system[cols_i as int], sw as int) == (system[cols_i as int].len() as int) / (sw + 2 + sw + 2),
    ;
    let columns_len = streams[cols_i].len();
    assert(columns_len == system[cols_i as int].len());
    let table_columns = group_columns(&entries);
    proof {
        lemma_u64_keys_ordered();
    }
    let mut i: usize = 0;
    while i < names.len()
        invariant
            i <= names@.len(),
            names@.len() == streams@.len(),
            nv == string_views(names@),
            u64_keys_ordered(),
            forall|id: u64| #[trigger] table_columns@.contains_key(id) ==> table_columns@[id]@ == columns_of(entries@, id),
            forall|id: u64| !(#[trigger] table_columns@.contains_key(id)) ==> columns_of(entries@, id).len() == 0,
            2 <= sw <= 3,
            string_views(strings@) == string_specs,
            4 * entries@.len() <= usize::MAX,
            byte_views(streams@) == after_user_tables(nv, system, string_specs, entries@, sw as int, i as int),
        decreases names@.len() - i,
    {
        let demangled = demangle_stream_name(names[i].as_str());
        let ghost layout = table_layout(nv, string_specs, entries@, sw as int, i as int);
        match table_name_of(demangled.as_str()) {
            Some(t) => match string_id(&strings, t.as_str()) {
                Some(id) => match table_columns.get(&(id as u64)) {
                    Some(listed) => {
                        proof {
                            lemma_columns_of_len(entries@, id as u64);
                            lemma_sort_by_number(listed@);
                        }
                        let cols = sort_columns(listed);
                        proof {
                            lemma_layout_sortable(cols@, sw as int);
                        }
                        let (widths, keys) = layout_of(&cols, sw);
                        if keys.len() > 0 {
                            resort_in_place(streams, i, &widths, &keys);
                        }
                    },
                    None => {
                        assert(columns_of(entries@, id as u64) =~= Seq::<(u64, u64)>::empty());
                        assert(sort_by_number(Seq::<(u64, u64)>::empty()) =~= Seq::<(u64, u64)>::empty());
                    },
                },
                None => {},
            },
            None => {},
        }
        i = i + 1;
    }
    Ok(())
}

} // verus!
