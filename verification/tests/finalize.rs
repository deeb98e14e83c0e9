use cargo_crapapp::windows_installer::msi::finalizer::{
    demangle_stream_name, finalize_streams, find_stream, read_pool_strings, streams_fit, string_id,
    string_pool_fits, string_width, FinalizeError,
};
use cargo_crapapp::windows_installer::msi::resort::resort_stream;

fn table_stream_name(name: &str) -> String {
    let mut raw = String::new();
    raw.push('\u{4840}');
    raw.push_str(name);
    raw
}

#[test]
fn demangles_two_character_code_points() {
    let raw: String = [char::from_u32(0x3800 + 1 + 2 * 64).unwrap()].iter().collect();
    assert_eq!(demangle_stream_name(&raw), "12");
}

#[test]
fn demangles_single_characters_and_the_table_marker() {
    let raw: String = [
        char::from_u32(0x4840).unwrap(),
        char::from_u32(0x4800 + 10).unwrap(),
        char::from_u32(0x4800 + 62).unwrap(),
        char::from_u32(0x4800 + 63).unwrap(),
        'x',
    ]
    .iter()
    .collect();
    assert_eq!(demangle_stream_name(&raw), "\0A._x");
}

#[test]
fn demangles_letters_of_both_cases() {
    let raw: String = [char::from_u32(0x3800 + 36 + 61 * 64).unwrap()].iter().collect();
    assert_eq!(demangle_stream_name(&raw), "az");
}

#[test]
fn resort_orders_rows_by_key_column() {
    let data = vec![5, 0, 1, 0, 3, 0, 10, 11, 12];
    let sorted = resort_stream(&data, &[2, 1], &[0]);
    assert_eq!(sorted, vec![1, 0, 3, 0, 5, 0, 11, 12, 10]);
}

#[test]
fn resort_zeroes_bytes_past_the_last_row() {
    let data = vec![5, 0, 1, 0, 3, 0, 10, 11, 12, 99];
    let sorted = resort_stream(&data, &[2, 1], &[0]);
    assert_eq!(sorted, vec![1, 0, 3, 0, 5, 0, 11, 12, 10, 0]);
}

#[test]
fn resort_keeps_stream_order_for_equal_keys() {
    let data = vec![2, 1, 2, 1, 7, 8, 9, 6];
    let sorted = resort_stream(&data, &[1, 1], &[0]);
    assert_eq!(sorted, vec![1, 1, 2, 2, 8, 6, 7, 9]);
}

#[test]
fn resort_compares_later_keys_on_ties() {
    let data = vec![1, 1, 1, 3, 2, 1];
    let sorted = resort_stream(&data, &[1, 1], &[0, 1]);
    assert_eq!(sorted, vec![1, 1, 1, 1, 2, 3]);
}

#[test]
fn resort_reads_keys_little_endian() {
    let data = vec![0, 1, 255, 0, 7, 8];
    let sorted = resort_stream(&data, &[2, 1], &[0]);
    assert_eq!(sorted, vec![255, 0, 0, 1, 8, 7]);
}

#[test]
fn resort_leaves_a_single_row_alone() {
    let data = vec![9, 8, 7];
    assert_eq!(resort_stream(&data, &[2], &[0]), data);
}

#[test]
fn resort_leaves_rows_without_width_alone() {
    let data = vec![9, 8, 7];
    assert_eq!(resort_stream(&data, &[0, 0], &[0]), data);
}

#[test]
fn string_width_follows_the_pool_header() {
    assert_eq!(string_width(&[0, 0, 0, 0]), 2);
    assert_eq!(string_width(&[0, 0, 0, 0x80]), 3);
    assert_eq!(string_width(&[0, 0]), 2);
}

#[test]
fn pool_strings_are_read_in_order() {
    let pool = vec![0, 0, 0, 0, 3, 0, 1, 0, 2, 0, 1, 0];
    let strings = read_pool_strings(&pool, b"FooOK");
    assert_eq!(strings, vec!["".to_owned(), "Foo".to_owned(), "OK".to_owned()]);
    assert_eq!(string_id(&strings, "OK"), Some(2));
    assert_eq!(string_id(&strings, "Bar"), None);
}

#[test]
fn pool_strings_replace_invalid_utf8() {
    let pool = vec![0, 0, 0, 0, 2, 0, 1, 0];
    let strings = read_pool_strings(&pool, &[0xff, b'a']);
    assert_eq!(strings, vec!["".to_owned(), "\u{fffd}a".to_owned()]);
}

#[test]
fn pool_strings_stop_at_the_end_of_the_data() {
    let pool = vec![0, 0, 0, 0, 9, 0, 1, 0];
    let strings = read_pool_strings(&pool, b"abc");
    assert_eq!(strings, vec!["".to_owned(), "abc".to_owned()]);
}

#[test]
fn pool_fits_only_when_each_string_starts_inside_the_data() {
    let pool = vec![0, 0, 0, 0, 3, 0, 1, 0, 2, 0, 1, 0];
    assert!(string_pool_fits(&pool, 3));
    assert!(!string_pool_fits(&pool, 2));
}

#[test]
fn streams_are_found_by_their_readable_suffix() {
    let names = vec![table_stream_name("Foo"), table_stream_name("_Columns")];
    assert_eq!(find_stream(&names, "_Columns"), Some(1));
    assert_eq!(find_stream(&names, "_Tables"), None);
}

fn database() -> (Vec<String>, Vec<Vec<u8>>) {
    let names = vec![
        table_stream_name("_StringPool"),
        table_stream_name("_StringData"),
        table_stream_name("_Columns"),
        table_stream_name("Foo"),
        table_stream_name("Bar"),
    ];
    let pool = vec![0, 0, 0, 0, 3, 0, 1, 0, 3, 0, 1, 0, 3, 0, 1, 0];
    let data = b"FooKeyVal".to_vec();
    let columns = vec![1, 0, 1, 0, 1, 0x80, 2, 0x80, 2, 0, 3, 0, 0x00, 0xA8, 0x02, 0x84];
    let foo = vec![3, 0, 1, 0, 2, 0, 30, 0, 10, 0, 20, 0];
    let bar = vec![3, 0, 1, 0];
    (names, vec![pool, data, columns, foo, bar])
}

#[test]
fn finalize_sorts_tables_by_their_key_columns() {
    let (names, streams) = database();
    assert!(streams_fit(&names, &streams));
    let mut result = streams.clone();
    assert_eq!(finalize_streams(&names, &mut result), Ok(()));
    assert_eq!(result[3], vec![1, 0, 2, 0, 3, 0, 10, 0, 20, 0, 30, 0]);
    assert_eq!(result[0], streams[0]);
    assert_eq!(result[2], streams[2]);
    assert_eq!(result[4], streams[4]);
}

#[test]
fn finalize_needs_the_string_pool() {
    let (mut names, mut streams) = database();
    names[0] = table_stream_name("Other");
    let before = streams.clone();
    assert_eq!(finalize_streams(&names, &mut streams), Err(FinalizeError::MissingStringPool));
    assert_eq!(streams, before);
    assert_eq!(FinalizeError::MissingStringPool.to_string(), "MSI has no _StringPool");
}

#[test]
fn finalize_needs_the_string_data() {
    let (mut names, mut streams) = database();
    names[1] = table_stream_name("Other");
    let before = streams.clone();
    assert_eq!(finalize_streams(&names, &mut streams), Err(FinalizeError::MissingStringData));
    assert_eq!(streams, before);
    assert_eq!(FinalizeError::MissingStringData.to_string(), "MSI has no _StringData");
}

#[test]
fn finalize_needs_the_columns_table() {
    let (mut names, mut streams) = database();
    names[2] = table_stream_name("Other");
    let before = streams.clone();
    assert_eq!(finalize_streams(&names, &mut streams), Err(FinalizeError::MissingColumns));
    assert_eq!(streams, before);
    assert_eq!(FinalizeError::MissingColumns.to_string(), "MSI has no _Columns");
}

#[test]
fn finalize_sorts_the_system_tables_before_missing_columns_fail_it() {
    let (mut names, mut streams) = database();
    names[2] = table_stream_name("_Tables");
    streams[2] = vec![3, 0, 1, 0];
    assert_eq!(finalize_streams(&names, &mut streams), Err(FinalizeError::MissingColumns));
    assert_eq!(streams[2], vec![1, 0, 3, 0]);
    assert_eq!(streams[3], vec![3, 0, 1, 0, 2, 0, 30, 0, 10, 0, 20, 0]);
}

#[test]
fn resorting_a_sorted_stream_changes_nothing() {
    let data = vec![5, 0, 1, 0, 3, 0, 10, 11, 12, 99];
    let once = resort_stream(&data, &[2, 1], &[0]);
    let twice = resort_stream(&once, &[2, 1], &[0]);
    assert_eq!(once, twice);
}
