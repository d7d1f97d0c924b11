//! What holds of splitting and reassembly for every file and every set of
//! chunks.

use super::chunk::{
    declared_size, declared_total,
    chunk_count, chunk_end, concat_data, first_misplaced, insert_by_id, lemma_chunk_starts_in_file,
    lemma_insert_position, lemma_sort_keeps_length, merge_spec,
    missing_chunk_message, missing_chunks_message, nth_chunk, size_mismatch_message, sort_by_id,
    split_spec, FileChunkView,
};
use super::receive::{
    initial_session, receive_all, receive_step, session_chunk, IncomingView, ReceiveOutcomeView,
    ReceiveSessionView,
};
use super::transfer::{send_messages, send_step, send_steps, TransferMessageView};
use crate::ErrorView;
use vstd::arithmetic::div_mod::lemma_fundamental_div_mod;
use vstd::prelude::*;
use vstd::seq_lib::{to_multiset_build, to_multiset_contains, to_multiset_insert, to_multiset_len, to_multiset_remove};

verus! {

/// No chunk comes before one with a lower id.
pub open spec fn ordered(s: Seq<FileChunkView>) -> bool {
    forall|i: int, j: int| 0 <= i < j < s.len() ==> s[i].chunk_id <= s[j].chunk_id
}

/// Ids rise from each chunk to the next, so no id occurs twice.
pub open spec fn strictly_ordered(s: Seq<FileChunkView>) -> bool {
    forall|i: int, j: int| 0 <= i < j < s.len() ==> s[i].chunk_id < s[j].chunk_id
}

/// The chunk at each position carries the position as its id.
pub open spec fn in_place(s: Seq<FileChunkView>) -> bool {
    forall|i: int| 0 <= i < s.len() ==> (#[trigger] s[i]).chunk_id == i
}

/// Where [`insert_by_id`] puts a chunk.
pub open spec fn insert_pos(s: Seq<FileChunkView>, c: FileChunkView) -> int
    decreases s.len(),
{
    if s.len() == 0 {
        0
    } else if s.last().chunk_id <= c.chunk_id {
        s.len() as int
    } else {
        insert_pos(s.drop_last(), c)
    }
}

pub proof fn lemma_insert_pos(s: Seq<FileChunkView>, c: FileChunkView)
    ensures
        0 <= insert_pos(s, c) <= s.len(),
        forall|k: int| insert_pos(s, c) <= k < s.len() ==> (#[trigger] s[k]).chunk_id > c.chunk_id,
        insert_pos(s, c) > 0 ==> s[insert_pos(s, c) - 1].chunk_id <= c.chunk_id,
        insert_by_id(s, c) == s.insert(insert_pos(s, c), c),
    decreases s.len(),
{
    if s.len() > 0 && s.last().chunk_id > c.chunk_id {
        let rest = s.drop_last();
        lemma_insert_pos(rest, c);
        assert forall|k: int| insert_pos(s, c) <= k < s.len() implies (#[trigger] s[k]).chunk_id
            > c.chunk_id by {
            if k < rest.len() {
                assert(rest[k] == s[k]);
            }
        }
        if insert_pos(s, c) > 0 {
            assert(rest[insert_pos(s, c) - 1] == s[insert_pos(s, c) - 1]);
        }
    }
    lemma_insert_position(s, c, insert_pos(s, c));
}

pub proof fn lemma_insert_keeps_order(s: Seq<FileChunkView>, c: FileChunkView)
    requires
        ordered(s),
    ensures
        ordered(insert_by_id(s, c)),
{
    lemma_insert_pos(s, c);
    let p = insert_pos(s, c);
    let r = s.insert(p, c);
    assert forall|i: int, j: int| 0 <= i < j < r.len() implies r[i].chunk_id <= r[j].chunk_id by {
        if i < p {
            assert(r[i] == s[i]);
            assert(s[i].chunk_id <= s[p - 1].chunk_id);
        }
        if j > p {
            assert(r[j] == s[j - 1]);
        }
    }
}

/// Sorting leaves the chunks in ascending order of id.
pub proof fn lemma_sort_is_ordered(s: Seq<FileChunkView>)
    ensures
        ordered(sort_by_id(s)),
    decreases s.len(),
{
    if s.len() > 0 {
        lemma_sort_is_ordered(s.drop_last());
        lemma_insert_keeps_order(sort_by_id(s.drop_last()), s.last());
    }
}

/// Sorting keeps every chunk, as often as it came.
pub proof fn lemma_sort_keeps_chunks(s: Seq<FileChunkView>)
    ensures
        sort_by_id(s).to_multiset() == s.to_multiset(),
    decreases s.len(),
{
    if s.len() > 0 {
        let rest = s.drop_last();
        lemma_sort_keeps_chunks(rest);
        lemma_insert_pos(sort_by_id(rest), s.last());
        to_multiset_insert(sort_by_id(rest), insert_pos(sort_by_id(rest), s.last()), s.last());
        to_multiset_build(rest, s.last());
        assert(rest.push(s.last()) =~= s);
    } else {
        assert(sort_by_id(s) =~= s);
    }
}

/// Chunks already in ascending order of id stay as they are.
pub proof fn lemma_sort_of_ordered(s: Seq<FileChunkView>)
    requires
        ordered(s),
    ensures
        sort_by_id(s) == s,
    decreases s.len(),
{
    if s.len() > 0 {
        let rest = s.drop_last();
        lemma_sort_of_ordered(rest);
        if rest.len() > 0 {
            assert(rest.last() == s[s.len() - 2]);
        }
        assert(rest.push(s.last()) =~= s);
    } else {
        assert(sort_by_id(s) =~= s);
    }
}

/// An ascending arrangement of chunks whose ids are all different is the only
/// ascending arrangement of those chunks.
pub proof fn lemma_ordered_unique(a: Seq<FileChunkView>, t: Seq<FileChunkView>)
    requires
        ordered(a),
        strictly_ordered(t),
        a.to_multiset() == t.to_multiset(),
    ensures
        a == t,
    decreases a.len(),
{
    to_multiset_len(a);
    to_multiset_len(t);
    if a.len() == 0 {
        assert(a =~= t);
    } else {
        let n = a.len() as int;
        to_multiset_contains(a, a.last());
        to_multiset_contains(t, a.last());
        to_multiset_contains(a, t.last());
        to_multiset_contains(t, t.last());
        assert(a.contains(a.last())) by {
            assert(a[n - 1] == a.last());
        }
        assert(t.contains(t.last())) by {
            assert(t[n - 1] == t.last());
        }
        let j = choose|j: int| 0 <= j < t.len() && t[j] == a.last();
        let i = choose|i: int| 0 <= i < a.len() && a[i] == t.last();
        assert(a[i].chunk_id <= a[n - 1].chunk_id);
        assert(j == n - 1);
        to_multiset_remove(a, n - 1);
        to_multiset_remove(t, n - 1);
        assert(a.remove(n - 1) =~= a.drop_last());
        assert(t.remove(n - 1) =~= t.drop_last());
        lemma_ordered_unique(a.drop_last(), t.drop_last());
        assert(a =~= a.drop_last().push(a.last()));
        assert(t =~= t.drop_last().push(t.last()));
    }
}

/// Chunks whose ids are all different sort into the same arrangement whatever
/// order they came in.
pub proof fn lemma_sort_ignores_arrival_order(chunks: Seq<FileChunkView>, arranged: Seq<FileChunkView>)
    requires
        strictly_ordered(arranged),
        chunks.to_multiset() == arranged.to_multiset(),
    ensures
        sort_by_id(chunks) == arranged,
{
    lemma_sort_is_ordered(chunks);
    lemma_sort_keeps_chunks(chunks);
    lemma_ordered_unique(sort_by_id(chunks), arranged);
}

pub proof fn lemma_first_misplaced(s: Seq<FileChunkView>, from: int)
    requires
        0 <= from <= s.len(),
    ensures
        from <= first_misplaced(s, from) <= s.len(),
        forall|i: int| from <= i < first_misplaced(s, from) ==> (#[trigger] s[i]).chunk_id == i,
        first_misplaced(s, from) < s.len() ==> s[first_misplaced(s, from)].chunk_id
            != first_misplaced(s, from),
    decreases s.len() - from,
{
    if from < s.len() && s[from].chunk_id == from {
        lemma_first_misplaced(s, from + 1);
    }
}

pub proof fn lemma_in_place_is_strictly_ordered(s: Seq<FileChunkView>)
    requires
        in_place(s),
    ensures
        strictly_ordered(s),
        ordered(s),
        first_misplaced(s, 0) == s.len(),
{
    lemma_first_misplaced(s, 0);
}

/// The pieces of a file come out of splitting with their ids in place.
pub proof fn lemma_split_in_place(data: Seq<u8>, chunk_size: nat, file_name: Seq<char>)
    ensures
        in_place(split_spec(data, chunk_size, file_name)),
        split_spec(data, chunk_size, file_name).len() == chunk_count(data.len(), chunk_size),
{
}

/// Full pieces reach the end of the file or go past it.
pub proof fn lemma_chunks_cover_file(len: nat, chunk_size: nat)
    requires
        chunk_size > 0,
    ensures
        chunk_count(len, chunk_size) * chunk_size >= len,
        chunk_count(len, chunk_size) == 0 <==> len == 0,
{
    lemma_fundamental_div_mod(len as int, chunk_size as int);
    let q = len / chunk_size;
    let r = len % chunk_size;
    assert((q + 1) * chunk_size == chunk_size * q + chunk_size) by (nonlinear_arith);
    assert(q * chunk_size == chunk_size * q) by (nonlinear_arith);
    assert(0 * chunk_size == 0) by (nonlinear_arith);
    if q == 0 {
        assert(chunk_size * q == 0) by (nonlinear_arith)
            requires
                q == 0,
        ;
    }
}

/// The first `n` pieces of a file, put end to end, are the file up to where
/// piece `n - 1` ends.
pub proof fn lemma_concat_of_pieces(data: Seq<u8>, chunk_size: nat, file_name: Seq<char>, n: nat)
    requires
        chunk_size > 0,
        n <= chunk_count(data.len(), chunk_size),
    ensures
        concat_data(split_spec(data, chunk_size, file_name).take(n as int)) == data.subrange(
            0,
            chunk_end(data.len(), chunk_size, n - 1),
        ),
    decreases n,
{
    let pieces = split_spec(data, chunk_size, file_name);
    let len = data.len();
    if n == 0 {
        assert((-1 + 1) * chunk_size == 0) by (nonlinear_arith);
        assert(concat_data(pieces.take(0)) =~= data.subrange(0, 0));
    } else {
        let i = (n - 1) as nat;
        lemma_concat_of_pieces(data, chunk_size, file_name, i);
        lemma_chunk_starts_in_file(len, chunk_size, i);
        assert((i - 1 + 1) * chunk_size == i * chunk_size) by (nonlinear_arith);
        assert((i + 1) * chunk_size == i * chunk_size + chunk_size) by (nonlinear_arith)
            requires
                chunk_size > 0,
        ;
        assert(chunk_end(len, chunk_size, i - 1) == i * chunk_size);
        assert(pieces.take(n as int).drop_last() =~= pieces.take(i as int));
        assert(pieces.take(n as int).last() == nth_chunk(data, chunk_size, file_name, i as int));
        assert(concat_data(pieces.take(n as int)) =~= data.subrange(
            0,
            chunk_end(len, chunk_size, i as int),
        ));
    }
}

/// Splitting a file and putting the pieces together gives the file back,
/// whatever its bytes and whatever the size of a piece.
pub proof fn lemma_merge_of_split(data: Seq<u8>, chunk_size: nat, file_name: Seq<char>)
    requires
        chunk_size > 0,
    ensures
        merge_spec(split_spec(data, chunk_size, file_name)) == Ok::<Seq<u8>, ErrorView>(data),
{
    let pieces = split_spec(data, chunk_size, file_name);
    let count = chunk_count(data.len(), chunk_size);
    lemma_split_in_place(data, chunk_size, file_name);
    lemma_in_place_is_strictly_ordered(pieces);
    lemma_sort_of_ordered(pieces);
    lemma_chunks_cover_file(data.len(), chunk_size);
    lemma_concat_of_pieces(data, chunk_size, file_name, count);
    assert(pieces.take(count as int) =~= pieces);
    if count == 0 {
        assert(data =~= Seq::<u8>::empty());
    } else {
        assert((count - 1 + 1) * chunk_size == count * chunk_size) by (nonlinear_arith);
        assert(chunk_end(data.len(), chunk_size, count - 1) == data.len());
        assert(data.subrange(0, data.len() as int) =~= data);
    }
}

/// When a chunk id below the declared number of chunks is not among the
/// chunks, reassembly fails: with the count of chunks where that is not the
/// declared one, otherwise with the first position, at or before the absent
/// id, whose chunk is not the expected one.
pub proof fn lemma_absent_chunk_fails(chunks: Seq<FileChunkView>, k: nat)
    requires
        chunks.len() > 0,
        k < declared_total(chunks),
        forall|i: int| 0 <= i < chunks.len() ==> (#[trigger] chunks[i]).chunk_id != k,
    ensures
        chunks.len() != declared_total(chunks) ==> merge_spec(chunks) == Err::<
            Seq<u8>,
            ErrorView,
        >(ErrorView::File(missing_chunks_message(declared_total(chunks), chunks.len()))),
        chunks.len() == declared_total(chunks) ==> first_misplaced(sort_by_id(chunks), 0) <= k
            && merge_spec(chunks) == Err::<Seq<u8>, ErrorView>(
            ErrorView::File(
                missing_chunk_message(
                    first_misplaced(sort_by_id(chunks), 0) as nat,
                    sort_by_id(chunks)[first_misplaced(sort_by_id(chunks), 0)].chunk_id,
                ),
            ),
        ),
{
    let sorted = sort_by_id(chunks);
    lemma_sort_keeps_length(chunks);
    if chunks.len() == declared_total(chunks) {
        lemma_first_misplaced(sorted, 0);
        let p = first_misplaced(sorted, 0);
        if p > k {
            assert(sorted[k as int].chunk_id == k);
            lemma_sort_keeps_chunks(chunks);
            to_multiset_contains(sorted, sorted[k as int]);
            to_multiset_contains(chunks, sorted[k as int]);
            assert(sorted.contains(sorted[k as int]));
            let i = choose|i: int| 0 <= i < chunks.len() && chunks[i] == sorted[k as int];
            assert(chunks[i].chunk_id == k);
        }
    }
}

/// When every chunk of a file is there, each id once, reassembly does not
/// depend on the order of arrival: it gives the bytes of the chunks in order
/// of id where they add up to the declared length, and says how the length
/// differs where they do not.
pub proof fn lemma_complete_set_merges(chunks: Seq<FileChunkView>, arranged: Seq<FileChunkView>)
    requires
        arranged.len() > 0,
        in_place(arranged),
        arranged[0].total_chunks == arranged.len(),
        chunks.to_multiset() == arranged.to_multiset(),
    ensures
        sort_by_id(chunks) == arranged,
        concat_data(arranged).len() == arranged[0].file_size ==> merge_spec(chunks) == Ok::<
            Seq<u8>,
            ErrorView,
        >(concat_data(arranged)),
        concat_data(arranged).len() != arranged[0].file_size ==> merge_spec(chunks) == Err::<
            Seq<u8>,
            ErrorView,
        >(
            ErrorView::File(
                size_mismatch_message(arranged[0].file_size, concat_data(arranged).len()),
            ),
        ),
{
    lemma_in_place_is_strictly_ordered(arranged);
    lemma_sort_ignores_arrival_order(chunks, arranged);
}

/// Where all chunks agree on the number of chunks and the length of the file,
/// those are the declared ones.
pub proof fn lemma_declared_by_all(chunks: Seq<FileChunkView>, total: nat, size: nat)
    requires
        chunks.len() > 0,
        forall|i: int|
            0 <= i < chunks.len() ==> (#[trigger] chunks[i]).total_chunks == total && chunks[i].file_size
                == size,
    ensures
        declared_total(chunks) == total,
        declared_size(chunks) == size,
{
    let sorted = sort_by_id(chunks);
    lemma_sort_keeps_length(chunks);
    lemma_sort_keeps_chunks(chunks);
    to_multiset_contains(sorted, sorted[0]);
    to_multiset_contains(chunks, sorted[0]);
    assert(sorted.contains(sorted[0]));
    let i = choose|i: int| 0 <= i < chunks.len() && chunks[i] == sorted[0];
    assert(chunks[i].total_chunks == total);
}

/// The first `n` pieces of a file hold no more bytes than the file.
pub proof fn lemma_sent_bytes(data: Seq<u8>, chunk_size: nat, file_name: Seq<char>, n: nat)
    requires
        chunk_size > 0,
        n <= chunk_count(data.len(), chunk_size),
    ensures
        concat_data(split_spec(data, chunk_size, file_name).take(n as int)).len() <= data.len(),
        n == chunk_count(data.len(), chunk_size) ==> concat_data(
            split_spec(data, chunk_size, file_name).take(n as int),
        ).len() == data.len(),
{
    lemma_concat_of_pieces(data, chunk_size, file_name, n);
    lemma_chunks_cover_file(data.len(), chunk_size);
    assert(0 <= n * chunk_size) by (nonlinear_arith);
    assert((n - 1 + 1) * chunk_size == n * chunk_size) by (nonlinear_arith);
}

/// Messages as the frames in which they reach a receiver.
pub open spec fn as_frames(messages: Seq<TransferMessageView>) -> Seq<IncomingView> {
    messages.map_values(|m: TransferMessageView| IncomingView::Message(m))
}

/// The session of a receiver that has taken the opening message of a file and
/// its first `j` chunks.
pub open spec fn session_after(
    data: Seq<u8>,
    chunk_size: nat,
    file_name: Seq<char>,
    j: int,
) -> ReceiveSessionView {
    ReceiveSessionView {
        started: true,
        file_name,
        file_size: data.len(),
        total_chunks: chunk_count(data.len(), chunk_size),
        chunks: split_spec(data, chunk_size, file_name).take(j),
    }
}

proof fn lemma_receive_rest(data: Seq<u8>, chunk_size: nat, file_name: Seq<char>, j: nat)
    requires
        chunk_size > 0,
        j < chunk_count(data.len(), chunk_size) || j == chunk_count(data.len(), chunk_size) == 0,
    ensures
        receive_all(
            session_after(data, chunk_size, file_name, j as int),
            as_frames(send_messages(data, chunk_size, file_name)).skip(j as int + 1),
        ) == (ReceiveOutcomeView::Finished { file_name, data }),
    decreases chunk_count(data.len(), chunk_size) - j,
{
    let count = chunk_count(data.len(), chunk_size);
    let pieces = split_spec(data, chunk_size, file_name);
    let frames = as_frames(send_messages(data, chunk_size, file_name));
    let i = j as int;
    let rest = frames.skip(i + 1);
    let s = session_after(data, chunk_size, file_name, j as int);
    assert(rest[0] == frames[i + 1]);
    assert(send_steps(data, chunk_size, file_name)[i + 1] == send_step(
        data,
        chunk_size,
        file_name,
        i + 1,
    ));
    if count == 0 {
        lemma_chunks_cover_file(data.len(), chunk_size);
        assert(data =~= Seq::<u8>::empty());
        assert(s.chunks =~= Seq::<FileChunkView>::empty());
    } else {
        let next = session_after(data, chunk_size, file_name, i + 1);
        assert(session_chunk(s, pieces[j as int].chunk_id, pieces[j as int].data) == pieces[j as int]);
        assert(s.chunks.push(pieces[j as int]) =~= next.chunks);
        if j + 1 == count {
            assert(next.chunks =~= pieces);
            lemma_merge_of_split(data, chunk_size, file_name);
        } else {
            lemma_receive_rest(data, chunk_size, file_name, j + 1);
            assert(rest.drop_first() =~= frames.skip(i + 2));
        }
    }
}

/// A receiver that takes the messages of sending a file, in the order in
/// which they go out, ends with that file: the same name and the same bytes.
pub proof fn lemma_receive_of_send(data: Seq<u8>, chunk_size: nat, file_name: Seq<char>)
    requires
        chunk_size > 0,
    ensures
        receive_all(initial_session(), as_frames(send_messages(data, chunk_size, file_name)))
            == (ReceiveOutcomeView::Finished { file_name, data }),
{
    let frames = as_frames(send_messages(data, chunk_size, file_name));
    assert(send_steps(data, chunk_size, file_name)[0] == send_step(data, chunk_size, file_name, 0));
    let after = session_after(data, chunk_size, file_name, 0);
    assert(after.chunks =~= Seq::<FileChunkView>::empty());
    assert(receive_step(initial_session(), frames[0]) == ReceiveOutcomeView::Continue(after));
    assert(frames.drop_first() =~= frames.skip(1));
    lemma_receive_rest(data, chunk_size, file_name, 0);
}

/// Whether a chunk with the id `k` is among the chunks.
pub open spec fn holds_id(chunks: Seq<FileChunkView>, k: nat) -> bool {
    exists|i: int| 0 <= i < chunks.len() && (#[trigger] chunks[i]).chunk_id == k
}

/// Whether every id below the number of chunks is among the chunks.
pub open spec fn holds_every_id(chunks: Seq<FileChunkView>) -> bool {
    forall|k: nat| k < chunks.len() ==> #[trigger] holds_id(chunks, k)
}

proof fn lemma_position_at_least(s: Seq<FileChunkView>, k: nat, j: int)
    requires
        ordered(s),
        holds_every_id(s),
        k < s.len(),
        0 <= j < s.len(),
        s[j].chunk_id == k,
    ensures
        j >= k,
    decreases k,
{
    if k > 0 {
        let below = (k - 1) as nat;
        assert(holds_id(s, below));
        let j2 = choose|i: int| 0 <= i < s.len() && (#[trigger] s[i]).chunk_id == below;
        lemma_position_at_least(s, below, j2);
        if j < j2 {
            assert(s[j].chunk_id <= s[j2].chunk_id);
        }
    }
}

proof fn lemma_position_at_most(s: Seq<FileChunkView>, k: nat, j: int)
    requires
        ordered(s),
        holds_every_id(s),
        k < s.len(),
        0 <= j < s.len(),
        s[j].chunk_id == k,
    ensures
        j <= k,
    decreases s.len() - k,
{
    if k + 1 < s.len() {
        let above = k + 1;
        assert(holds_id(s, above));
        let j2 = choose|i: int| 0 <= i < s.len() && (#[trigger] s[i]).chunk_id == above;
        lemma_position_at_most(s, above, j2);
        if j2 < j {
            assert(s[j2].chunk_id <= s[j].chunk_id);
        }
    }
}

/// Chunks in ascending order that hold every id below their number hold each
/// id at its place.
pub proof fn lemma_every_id_in_place(s: Seq<FileChunkView>)
    requires
        ordered(s),
        holds_every_id(s),
    ensures
        in_place(s),
{
    assert forall|i: int| 0 <= i < s.len() implies (#[trigger] s[i]).chunk_id == i by {
        let k = i as nat;
        assert(holds_id(s, k));
        let j = choose|j: int| 0 <= j < s.len() && (#[trigger] s[j]).chunk_id == k;
        lemma_position_at_least(s, k, j);
        lemma_position_at_most(s, k, j);
    }
}

/// When as many chunks are there as were declared and every id below that
/// number is among them, reassembly succeeds, whatever order the chunks came
/// in, provided their bytes add up to the declared length: it gives the bytes
/// of the chunks in order of id. Where the bytes do not add up, it says how
/// the length differs.
pub proof fn lemma_all_present_merges(chunks: Seq<FileChunkView>)
    requires
        chunks.len() > 0,
        chunks.len() == declared_total(chunks),
        holds_every_id(chunks),
    ensures
        in_place(sort_by_id(chunks)),
        concat_data(sort_by_id(chunks)).len() == declared_size(chunks) ==> merge_spec(chunks)
            == Ok::<Seq<u8>, ErrorView>(concat_data(sort_by_id(chunks))),
        concat_data(sort_by_id(chunks)).len() != declared_size(chunks) ==> merge_spec(chunks)
            == Err::<Seq<u8>, ErrorView>(
            ErrorView::File(
                size_mismatch_message(
                    declared_size(chunks),
                    concat_data(sort_by_id(chunks)).len(),
                ),
            ),
        ),
{
    let sorted = sort_by_id(chunks);
    lemma_sort_keeps_length(chunks);
    lemma_sort_is_ordered(chunks);
    lemma_sort_keeps_chunks(chunks);
    assert forall|k: nat| k < sorted.len() implies #[trigger] holds_id(sorted, k) by {
        assert(holds_id(chunks, k));
        let i = choose|i: int| 0 <= i < chunks.len() && (#[trigger] chunks[i]).chunk_id == k;
        to_multiset_contains(chunks, chunks[i]);
        to_multiset_contains(sorted, chunks[i]);
        assert(chunks.contains(chunks[i]));
        let j = choose|j: int| 0 <= j < sorted.len() && sorted[j] == chunks[i];
        assert(sorted[j].chunk_id == k);
    }
    lemma_every_id_in_place(sorted);
    lemma_in_place_is_strictly_ordered(sorted);
}

/// Every piece of a file but the last holds exactly `chunk_size` bytes; the
/// last holds at least one byte and at most `chunk_size`.
pub proof fn lemma_piece_lengths(data: Seq<u8>, chunk_size: nat, file_name: Seq<char>, i: int)
    requires
        chunk_size > 0,
        0 <= i < chunk_count(data.len(), chunk_size),
    ensures
        i + 1 < chunk_count(data.len(), chunk_size) ==> split_spec(
            data,
            chunk_size,
            file_name,
        )[i].data.len() == chunk_size,
        i + 1 == chunk_count(data.len(), chunk_size) ==> 0 < split_spec(
            data,
            chunk_size,
            file_name,
        )[i].data.len() <= chunk_size,
{
    let len = data.len();
    let count = chunk_count(len, chunk_size);
    lemma_chunk_starts_in_file(len, chunk_size, i as nat);
    lemma_chunks_cover_file(len, chunk_size);
    assert((i + 1) * chunk_size == i * chunk_size + chunk_size) by (nonlinear_arith);
    assert(0 <= i * chunk_size) by (nonlinear_arith)
        requires
            0 <= i,
    ;
    if i + 1 < count {
        lemma_chunk_starts_in_file(len, chunk_size, (i + 1) as nat);
    }
}

} // verus!
