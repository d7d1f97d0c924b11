use stationuli_core::file::chunk::{count_chunks, FileChunk};
use stationuli_core::Error;

fn bytes(n: usize) -> Vec<u8> {
    (0..n).map(|i| (i * 7 % 251) as u8).collect()
}

fn chunk(id: u64, data: &[u8], total: u64, size: u64) -> FileChunk {
    FileChunk {
        chunk_id: id,
        data: data.to_vec(),
        total_chunks: total,
        file_name: "f.bin".to_string(),
        file_size: size,
    }
}

#[test]
fn split_then_merge_gives_the_file_back() {
    for size in [1usize, 2, 3, 7, 64, 1000, usize::MAX] {
        for len in [0usize, 1, 5, 63, 64, 65, 128, 1000, 1001] {
            let data = bytes(len);
            let chunks = FileChunk::split_file(&data, size, "a.bin".to_string());
            assert_eq!(FileChunk::merge_chunks(chunks), Ok(data));
        }
    }
}

#[test]
fn split_cuts_fixed_size_pieces() {
    let data = bytes(10);
    let chunks = FileChunk::split_file(&data, 4, "ten.bin".to_string());
    assert_eq!(chunks.len(), 3);
    assert_eq!(chunks[0].data, data[0..4].to_vec());
    assert_eq!(chunks[1].data, data[4..8].to_vec());
    assert_eq!(chunks[2].data, data[8..10].to_vec());
    for (i, c) in chunks.iter().enumerate() {
        assert_eq!(c.chunk_id, i as u64);
        assert_eq!(c.total_chunks, 3);
        assert_eq!(c.file_size, 10);
        assert_eq!(c.file_name, "ten.bin");
    }
}

#[test]
fn split_of_an_empty_file_has_no_pieces() {
    assert_eq!(FileChunk::split_file(&[], 4, "e".to_string()), vec![]);
}

#[test]
fn split_of_a_whole_number_of_pieces_has_no_short_piece() {
    let data = bytes(12);
    let chunks = FileChunk::split_file(&data, 4, "t".to_string());
    assert_eq!(chunks.len(), 3);
    assert_eq!(chunks[2].data.len(), 4);
}

#[test]
fn count_chunks_rounds_up() {
    assert_eq!(count_chunks(0, 4), 0);
    assert_eq!(count_chunks(1, 4), 1);
    assert_eq!(count_chunks(4, 4), 1);
    assert_eq!(count_chunks(5, 4), 2);
    assert_eq!(count_chunks(2_621_440, 1_048_576), 3);
    assert_eq!(count_chunks(u64::MAX, 1), u64::MAX);
    assert_eq!(count_chunks(u64::MAX, u64::MAX), 1);
}

#[test]
fn merge_of_nothing_is_an_empty_file() {
    assert_eq!(FileChunk::merge_chunks(vec![]), Ok(vec![]));
}

#[test]
fn merge_takes_chunks_in_any_order() {
    let data = bytes(10);
    let chunks = FileChunk::split_file(&data, 3, "ten.bin".to_string());
    assert_eq!(chunks.len(), 4);
    let orders: [[usize; 4]; 5] =
        [[0, 1, 2, 3], [3, 2, 1, 0], [1, 3, 0, 2], [2, 0, 3, 1], [3, 0, 1, 2]];
    for order in orders {
        let shuffled: Vec<FileChunk> = order.iter().map(|&i| chunks[i].clone()).collect();
        assert_eq!(FileChunk::merge_chunks(shuffled), Ok(data.clone()));
    }
}

#[test]
fn merge_reports_a_wrong_number_of_chunks() {
    let data = bytes(10);
    let mut chunks = FileChunk::split_file(&data, 4, "ten.bin".to_string());
    chunks.remove(1);
    assert_eq!(
        FileChunk::merge_chunks(chunks),
        Err(Error::File("Missing chunks: expected 3, got 2".to_string()))
    );
}

#[test]
fn merge_reports_each_absent_id() {
    let n = 5u64;
    for absent in 0..n {
        // The id `absent` is replaced by a copy of another id, so that the
        // number of chunks is right and only the gap can be noticed.
        let stand_in = if absent == 0 { 1 } else { absent - 1 };
        let chunks: Vec<FileChunk> = (0..n)
            .map(|i| chunk(if i == absent { stand_in } else { i }, &[i as u8], n, n))
            .collect();
        let got = FileChunk::merge_chunks(chunks);
        let expected = if absent == 0 {
            "Missing chunk: expected 0, got 1".to_string()
        } else {
            format!("Missing chunk: expected {}, got {}", absent, absent - 1)
        };
        assert_eq!(got, Err(Error::File(expected)));
    }
}

#[test]
fn merge_reports_an_id_beyond_the_end() {
    let chunks = vec![chunk(0, &[1], 2, 2), chunk(7, &[2], 2, 2)];
    assert_eq!(
        FileChunk::merge_chunks(chunks),
        Err(Error::File("Missing chunk: expected 1, got 7".to_string()))
    );
}

#[test]
fn merge_reports_a_wrong_length() {
    let chunks = vec![chunk(1, &[3, 4], 2, 5), chunk(0, &[1, 2], 2, 5)];
    assert_eq!(
        FileChunk::merge_chunks(chunks),
        Err(Error::File("File size mismatch: expected 5, got 4".to_string()))
    );
}

#[test]
fn merge_checks_the_number_of_chunks_before_the_length() {
    let chunks = vec![chunk(0, &[1, 2, 3], 2, 5)];
    assert_eq!(
        FileChunk::merge_chunks(chunks),
        Err(Error::File("Missing chunks: expected 2, got 1".to_string()))
    );
}

#[test]
fn merge_goes_by_the_chunk_with_the_lowest_id() {
    // The chunk with id 0 says two chunks of four bytes; the other disagrees.
    let chunks = vec![chunk(1, &[3, 4], 9, 9), chunk(0, &[1, 2], 2, 4)];
    assert_eq!(FileChunk::merge_chunks(chunks), Ok(vec![1, 2, 3, 4]));
}

#[test]
fn merge_goes_by_the_first_of_two_chunks_with_the_lowest_id() {
    let chunks = vec![chunk(0, &[1], 3, 3), chunk(0, &[2], 2, 2)];
    assert_eq!(
        FileChunk::merge_chunks(chunks),
        Err(Error::File("Missing chunks: expected 3, got 2".to_string()))
    );
    let chunks = vec![chunk(0, &[2], 2, 2), chunk(0, &[1], 3, 3)];
    assert_eq!(
        FileChunk::merge_chunks(chunks),
        Err(Error::File("Missing chunk: expected 1, got 0".to_string()))
    );
}

#[test]
fn merge_writes_large_numbers_in_full() {
    let chunks = vec![chunk(0, &[1], u64::MAX, 1)];
    assert_eq!(
        FileChunk::merge_chunks(chunks),
        Err(Error::File("Missing chunks: expected 18446744073709551615, got 1".to_string()))
    );
}
