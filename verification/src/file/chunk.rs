//! Splitting a file into fixed-size chunks and putting the chunks together
//! again, whatever order they arrived in.

use crate::text::{decimal, push_decimal};
use crate::{Error, ErrorView};
use vstd::arithmetic::div_mod::{
    lemma_div_decreases, lemma_div_is_ordered_by_denominator, lemma_fundamental_div_mod,
    lemma_small_mod,
};
use vstd::prelude::*;
use vstd::slice::{slice_subrange, slice_to_vec};
use vstd::string::*;

verus! {

/// One piece of a file, with what the receiver needs to place it.
#[derive(Debug, Clone, PartialEq, Eq)]
pub struct FileChunk {
    pub chunk_id: u64,
    pub data: Vec<u8>,
    pub total_chunks: u64,
    pub file_name: String,
    pub file_size: u64,
}

/// The mathematical value of a [`FileChunk`].
pub struct FileChunkView {
    pub chunk_id: nat,
    pub data: Seq<u8>,
    pub total_chunks: nat,
    pub file_name: Seq<char>,
    pub file_size: nat,
}

impl View for FileChunk {
    type V = FileChunkView;

    open spec fn view(&self) -> FileChunkView {
        FileChunkView {
            chunk_id: self.chunk_id as nat,
            data: self.data@,
            total_chunks: self.total_chunks as nat,
            file_name: self.file_name@,
            file_size: self.file_size as nat,
        }
    }
}

/// The values of a sequence of chunks, in the same order.
pub open spec fn views(chunks: Seq<FileChunk>) -> Seq<FileChunkView> {
    chunks.map_values(|c: FileChunk| c@)
}

/// How many pieces of at most `chunk_size` bytes a file of `len` bytes makes.
pub open spec fn chunk_count(len: nat, chunk_size: nat) -> nat
    recommends
        chunk_size > 0,
{
    if len % chunk_size == 0 {
        len / chunk_size
    } else {
        len / chunk_size + 1
    }
}

/// Where piece `i` ends: a full piece after its start, or the end of the file.
pub open spec fn chunk_end(len: nat, chunk_size: nat, i: int) -> int {
    if (i + 1) * chunk_size <= len {
        (i + 1) * chunk_size
    } else {
        len as int
    }
}

/// Piece `i` of the file `data` named `file_name`, cut every `chunk_size` bytes.
pub open spec fn nth_chunk(
    data: Seq<u8>,
    chunk_size: nat,
    file_name: Seq<char>,
    i: int,
) -> FileChunkView {
    FileChunkView {
        chunk_id: i as nat,
        data: data.subrange(i * chunk_size, chunk_end(data.len(), chunk_size, i)),
        total_chunks: chunk_count(data.len(), chunk_size),
        file_name,
        file_size: data.len(),
    }
}

/// The pieces of a file in order: every piece but the last holds `chunk_size`
/// bytes, and an empty file has no pieces.
pub open spec fn split_spec(data: Seq<u8>, chunk_size: nat, file_name: Seq<char>) -> Seq<
    FileChunkView,
> {
    Seq::new(
        chunk_count(data.len(), chunk_size),
        |i: int| nth_chunk(data, chunk_size, file_name, i),
    )
}

/// `sorted` with `c` put in after every chunk whose id is not greater than its own.
pub open spec fn insert_by_id(sorted: Seq<FileChunkView>, c: FileChunkView) -> Seq<FileChunkView>
    decreases sorted.len(),
{
    if sorted.len() == 0 {
        seq![c]
    } else if sorted.last().chunk_id <= c.chunk_id {
        sorted.push(c)
    } else {
        insert_by_id(sorted.drop_last(), c).push(sorted.last())
    }
}

/// The chunks in ascending order of id; chunks with equal ids keep the order
/// they came in.
pub open spec fn sort_by_id(chunks: Seq<FileChunkView>) -> Seq<FileChunkView>
    decreases chunks.len(),
{
    if chunks.len() == 0 {
        Seq::empty()
    } else {
        insert_by_id(sort_by_id(chunks.drop_last()), chunks.last())
    }
}

/// The bytes of the chunks, one chunk after the other.
pub open spec fn concat_data(chunks: Seq<FileChunkView>) -> Seq<u8>
    decreases chunks.len(),
{
    if chunks.len() == 0 {
        Seq::empty()
    } else {
        concat_data(chunks.drop_last()) + chunks.last().data
    }
}

/// The first position at or after `from` whose chunk does not carry the
/// position as its id, or the length when every chunk from there on does.
pub open spec fn first_misplaced(sorted: Seq<FileChunkView>, from: int) -> int
    decreases sorted.len() - from,
{
    if from < 0 || from >= sorted.len() {
        sorted.len() as int
    } else if sorted[from].chunk_id != from {
        from
    } else {
        first_misplaced(sorted, from + 1)
    }
}

pub open spec fn missing_chunks_message(expected: nat, got: nat) -> Seq<char> {
    "Missing chunks: expected "@ + decimal(expected) + ", got "@ + decimal(got)
}

pub open spec fn missing_chunk_message(expected: nat, got: nat) -> Seq<char> {
    "Missing chunk: expected "@ + decimal(expected) + ", got "@ + decimal(got)
}

pub open spec fn size_mismatch_message(expected: nat, got: nat) -> Seq<char> {
    "File size mismatch: expected "@ + decimal(expected) + ", got "@ + decimal(got)
}

/// What reassembly makes of chunks that are already in ascending order of id.
/// The first chunk says how many chunks and how many bytes the file has.
pub open spec fn merge_sorted(sorted: Seq<FileChunkView>) -> Result<Seq<u8>, ErrorView> {
    if sorted.len() == 0 {
        Ok(Seq::empty())
    } else if sorted.len() != sorted[0].total_chunks {
        Err(ErrorView::File(missing_chunks_message(sorted[0].total_chunks, sorted.len())))
    } else if first_misplaced(sorted, 0) < sorted.len() {
        Err(
            ErrorView::File(
                missing_chunk_message(
                    first_misplaced(sorted, 0) as nat,
                    sorted[first_misplaced(sorted, 0)].chunk_id,
                ),
            ),
        )
    } else if concat_data(sorted).len() != sorted[0].file_size {
        Err(
            ErrorView::File(
                size_mismatch_message(sorted[0].file_size, concat_data(sorted).len()),
            ),
        )
    } else {
        Ok(concat_data(sorted))
    }
}

/// How many chunks the file has, by the chunk with the lowest id (the first
/// to arrive, among several with that id).
pub open spec fn declared_total(chunks: Seq<FileChunkView>) -> nat
    recommends
        chunks.len() > 0,
{
    sort_by_id(chunks)[0].total_chunks
}

/// How many bytes the file has, by the same chunk.
pub open spec fn declared_size(chunks: Seq<FileChunkView>) -> nat
    recommends
        chunks.len() > 0,
{
    sort_by_id(chunks)[0].file_size
}

/// What reassembly makes of chunks in any order: the file's bytes, or the
/// reason why the chunks do not make a file.
pub open spec fn merge_spec(chunks: Seq<FileChunkView>) -> Result<Seq<u8>, ErrorView> {
    merge_sorted(sort_by_id(chunks))
}

/// The value of a reassembly result.
pub open spec fn merge_result_view(r: Result<Vec<u8>, Error>) -> Result<Seq<u8>, ErrorView> {
    match r {
        Ok(data) => Ok(data@),
        Err(e) => Err(e@),
    }
}

/// Every piece that exists starts inside the file.
pub proof fn lemma_chunk_starts_in_file(len: nat, chunk_size: nat, i: nat)
    requires
        chunk_size > 0,
        i < chunk_count(len, chunk_size),
    ensures
        i * chunk_size < len,
{
    lemma_fundamental_div_mod(len as int, chunk_size as int);
    let q = len / chunk_size;
    let r = len % chunk_size;
    if r == 0 {
        assert(i * chunk_size <= (q - 1) * chunk_size) by (nonlinear_arith)
            requires
                i <= q - 1,
                chunk_size > 0,
        ;
        assert((q - 1) * chunk_size == chunk_size * q - chunk_size) by (nonlinear_arith);
    } else {
        assert(i * chunk_size <= chunk_size * q) by (nonlinear_arith)
            requires
                i <= q,
                chunk_size > 0,
        ;
    }
}

/// How many pieces of at most `chunk_size` bytes a file of `len` bytes makes.
pub fn count_chunks(len: u64, chunk_size: u64) -> (n: u64)
    requires
        chunk_size > 0,
    ensures
        n == chunk_count(len as nat, chunk_size as nat),
        n <= len,
{
    proof {
        lemma_small_mod(0, chunk_size as nat);
        lemma_fundamental_div_mod(len as int, chunk_size as int);
        if chunk_size > 1 && len > 0 {
            lemma_div_decreases(len as int, chunk_size as int);
        }
        lemma_div_is_ordered_by_denominator(len as int, 1, chunk_size as int);
    }
    if len % chunk_size == 0 {
        len / chunk_size
    } else {
        len / chunk_size + 1
    }
}

impl FileChunk {
    /// Cuts `data` into pieces of `chunk_size` bytes, the last one possibly
    /// shorter, each carrying its index, the number of pieces, the file's name
    /// and the file's length.
    pub fn split_file(data: &[u8], chunk_size: usize, file_name: String) -> (chunks: Vec<FileChunk>)
        requires
            chunk_size > 0,
        ensures
            views(chunks@) == split_spec(data@, chunk_size as nat, file_name@),
    {
        let len = data.len();
        let total: usize = if len % chunk_size == 0 {
            len / chunk_size
        } else {
            proof {
                lemma_small_mod(0, chunk_size as nat);
                if chunk_size > 1 {
                    lemma_div_decreases(len as int, chunk_size as int);
                }
            }
            len / chunk_size + 1
        };
        let mut chunks: Vec<FileChunk> = Vec::with_capacity(total);
        let mut i: usize = 0;
        let mut start: usize = 0;
        proof {
            if 0 < total {
                lemma_chunk_starts_in_file(len as nat, chunk_size as nat, 0);
            }
        }
        while i < total
            invariant
                chunk_size > 0,
                len == data@.len(),
                total == chunk_count(len as nat, chunk_size as nat),
                i <= total,
                i < total ==> start == i * chunk_size && start < len,
                chunks@.len() == i,
                forall|k: int|
                    0 <= k < i ==> (#[trigger] chunks@[k])@ == nth_chunk(
                        data@,
                        chunk_size as nat,
                        file_name@,
                        k,
                    ),
            decreases total - i,
        {
            let end: usize = if len - start > chunk_size {
                start + chunk_size
            } else {
                len
            };
            proof {
                assert((i + 1) * chunk_size == i * chunk_size + chunk_size) by (nonlinear_arith);
                if i + 1 < total {
                    lemma_chunk_starts_in_file(len as nat, chunk_size as nat, (i + 1) as nat);
                }
            }
            let piece = slice_to_vec(slice_subrange(data, start, end));
            chunks.push(
                FileChunk {
                    chunk_id: i as u64,
                    data: piece,
                    total_chunks: total as u64,
                    file_name: file_name.clone(),
                    file_size: len as u64,
                },
            );
            start = end;
            i = i + 1;
        }
        assert(views(chunks@) =~= split_spec(data@, chunk_size as nat, file_name@));
        chunks
    }
}

/// Putting a chunk in by scanning back from the end lands where
/// [`insert_by_id`] puts it.
pub proof fn lemma_insert_position(s: Seq<FileChunkView>, c: FileChunkView, j: int)
    requires
        0 <= j <= s.len(),
        forall|k: int| j <= k < s.len() ==> (#[trigger] s[k]).chunk_id > c.chunk_id,
        j > 0 ==> s[j - 1].chunk_id <= c.chunk_id,
    ensures
        insert_by_id(s, c) == s.insert(j, c),
    decreases s.len(),
{
    if s.len() == 0 {
        assert(s.insert(0, c) =~= seq![c]);
    } else if j == s.len() {
        assert(s.insert(j, c) =~= s.push(c));
    } else {
        lemma_insert_position(s.drop_last(), c, j);
        assert(s.insert(j, c) =~= s.drop_last().insert(j, c).push(s.last()));
    }
}

/// The chunks in ascending order of id, equal ids in the order they came.
fn sort_chunks(chunks: Vec<FileChunk>) -> (sorted: Vec<FileChunk>)
    ensures
        views(sorted@) == sort_by_id(views(chunks@)),
{
    let ghost all = chunks@;
    let mut sorted: Vec<FileChunk> = Vec::with_capacity(chunks.len());
    for c in it: chunks
        invariant
            it.seq() == all,
            views(sorted@) == sort_by_id(views(all.take(it.index() as int))),
    {
        let mut j: usize = sorted.len();
        while j > 0 && sorted[j - 1].chunk_id > c.chunk_id
            invariant
                j <= sorted.len(),
                forall|k: int| j <= k < sorted.len() ==> (#[trigger] sorted@[k]).chunk_id > c.chunk_id,
            decreases j,
        {
            j = j - 1;
        }
        proof {
            let before = views(sorted@);
            lemma_insert_position(before, c@, j as int);
            assert(views(sorted@.insert(j as int, c)) =~= before.insert(j as int, c@));
            let seen = all.take(it.index() as int + 1);
            assert(seen.drop_last() =~= all.take(it.index() as int));
            assert(views(seen).drop_last() =~= views(seen.drop_last()));
        }
        sorted.insert(j, c);
    }
    assert(all.take(all.len() as int) =~= all);
    sorted
}

/// Sorting neither loses nor adds a chunk.
pub proof fn lemma_sort_keeps_length(chunks: Seq<FileChunkView>)
    ensures
        sort_by_id(chunks).len() == chunks.len(),
    decreases chunks.len(),
{
    if chunks.len() > 0 {
        lemma_sort_keeps_length(chunks.drop_last());
        lemma_insert_adds_one(sort_by_id(chunks.drop_last()), chunks.last());
    }
}

pub proof fn lemma_insert_adds_one(sorted: Seq<FileChunkView>, c: FileChunkView)
    ensures
        insert_by_id(sorted, c).len() == sorted.len() + 1,
    decreases sorted.len(),
{
    if sorted.len() > 0 && sorted.last().chunk_id > c.chunk_id {
        lemma_insert_adds_one(sorted.drop_last(), c);
    }
}

/// `head`, the numeral of `a`, `middle`, the numeral of `b`.
pub(crate) fn numbers_message(head: &str, a: u64, middle: &str, b: u64) -> (s: String)
    ensures
        s@ == head@ + decimal(a as nat) + middle@ + decimal(b as nat),
{
    let mut s = String::from_str(head);
    push_decimal(&mut s, a);
    s.append(middle);
    push_decimal(&mut s, b);
    s
}

impl FileChunk {
    /// Puts the chunks of one file together. The chunks may come in any order.
    /// The chunk with the lowest id says how many chunks and how many bytes the
    /// file has; reassembly fails when the number of chunks differs, when the
    /// ids are not exactly 0, 1, 2, ... or when the bytes do not add up to the
    /// declared length. No chunks at all make an empty file.
    pub fn merge_chunks(chunks: Vec<FileChunk>) -> (r: Result<Vec<u8>, Error>)
        ensures
            merge_result_view(r) == merge_spec(views(chunks@)),
    {
        if chunks.is_empty() {
            return Ok(Vec::new());
        }
        proof {
            lemma_sort_keeps_length(views(chunks@));
        }
        let sorted = sort_chunks(chunks);
        let ghost sv = views(sorted@);
        let count: usize = sorted.len();
        let total_chunks: u64 = sorted[0].total_chunks;
        let file_size: u64 = sorted[0].file_size;
        if count as u64 != total_chunks {
            return Err(
                Error::File(
                    numbers_message("Missing chunks: expected ", total_chunks, ", got ", count as u64),
                ),
            );
        }
        let mut i: usize = 0;
        while i < count
            invariant
                count == sorted@.len(),
                sv == views(sorted@),
                i <= count,
                count > 0,
                count == sv[0].total_chunks,
                sv == sort_by_id(views(chunks@)),
                first_misplaced(sv, 0) == first_misplaced(sv, i as int),
            decreases count - i,
        {
            assert(sv[i as int] == sorted@[i as int]@);
            if sorted[i].chunk_id != i as u64 {
                assert(first_misplaced(sv, i as int) == i);
                return Err(
                    Error::File(
                        numbers_message(
                            "Missing chunk: expected ",
                            i as u64,
                            ", got ",
                            sorted[i].chunk_id,
                        ),
                    ),
                );
            }
            i = i + 1;
        }
        let mut result: Vec<u8> = Vec::new();
        let mut k: usize = 0;
        while k < count
            invariant
                count == sorted@.len(),
                sv == views(sorted@),
                k <= count,
                result@ == concat_data(sv.take(k as int)),
            decreases count - k,
        {
            proof {
                assert(sv.take(k as int + 1).drop_last() =~= sv.take(k as int));
            }
            result.extend_from_slice(sorted[k].data.as_slice());
            assert(result@ =~= concat_data(sv.take(k as int)) + sv[k as int].data);
            k = k + 1;
        }
        assert(sv.take(count as int) =~= sv);
        if result.len() as u64 != file_size {
            return Err(
                Error::File(
                    numbers_message(
                        "File size mismatch: expected ",
                        file_size,
                        ", got ",
                        result.len() as u64,
                    ),
                ),
            );
        }
        Ok(result)
    }
}

} // verus!
