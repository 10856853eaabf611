//! What a client of a remote table server sends and how it reads the answers.
//!
//! Each client operation sends one instruction; an operation on one range or
//! one value sends the same instruction as its batched form on a list of
//! one. A read is answered with, per query range, the pairs found for it; the
//! client hands those out as `(query range, stored range, data)` triples.

use crate::error::{DBInterfaceError, DBResult};
use crate::iter::{
    expected_items, lemma_expected_items_extra_range, lemma_expected_items_push, tag_with,
};
use crate::range::Range;
use vstd::prelude::*;
use vstd::string::StringExecFns;

verus! {

/// A stored bitmap: `data` holds entries of `entry_size` bytes each.
#[derive(Clone, Debug, PartialEq, Eq)]
pub struct Bitmap {
    pub entry_size: u64,
    pub data: Vec<u8>,
}

/// One write of `data` at the range `rng`.
#[derive(Clone, Debug, PartialEq, Eq)]
pub struct WriteAccess {
    pub rng: Range,
    pub data: Vec<u8>,
}

impl WriteAccess {
    /// The write of `data` at `rng`.
    pub fn new(rng: Range, data: Vec<u8>) -> (w: WriteAccess)
        ensures
            w == (WriteAccess { rng, data }),
    {
        WriteAccess { rng, data }
    }
}

/// The writes that a list of `(range, data)` pairs stands for, in order.
pub open spec fn write_accesses_of(setters: Seq<(Range, Vec<u8>)>) -> Seq<WriteAccess> {
    setters.map_values(|p: (Range, Vec<u8>)| WriteAccess { rng: p.0, data: p.1 })
}

/// An instruction to the table server.
#[derive(Clone, Debug, PartialEq, Eq)]
pub enum DBInstruction {
    /// Save the whole store to the file at this path.
    Save(String),
    /// Write bitmaps into a table.
    BPut(String, Vec<WriteAccess>),
    /// Read the bitmaps of a table over the query ranges.
    BGet(String, Vec<Range>),
    /// Delete the bitmap contents of a table over the ranges.
    BDel(String, Vec<Range>),
    /// Store objects into a table.
    OPut(String, Vec<WriteAccess>),
    /// Read the objects of a table that meet the query ranges.
    OGet(String, Vec<Range>),
    /// Delete the objects stored at exactly these ranges.
    ODel(String, Vec<Range>),
    /// Delete every object that meets one of the ranges.
    ODelAll(String, Vec<Range>),
}

/// Each write stands for its own `(range, data)` pair, unchanged: one write
/// per pair, in order, with exactly that pair's range and data, whatever the
/// data's length and whatever the neighbouring pairs hold.
pub proof fn lemma_writes_follow_setters(setters: Seq<(Range, Vec<u8>)>)
    ensures
        write_accesses_of(setters).len() == setters.len(),
        forall|i: int|
            0 <= i < setters.len() ==> #[trigger] write_accesses_of(setters)[i] == (WriteAccess {
                rng: setters[i].0,
                data: setters[i].1,
            }),
{
}

/// Builds the writes for a list of `(range, data)` pairs: one per pair, in
/// order, each with exactly its pair's range and data.
pub fn write_accesses(setters: Vec<(Range, Vec<u8>)>) -> (w: Vec<WriteAccess>)
    ensures
        w@ == write_accesses_of(setters@),
        w@.len() == setters@.len(),
        forall|i: int|
            0 <= i < setters@.len() ==> #[trigger] w@[i] == (WriteAccess {
                rng: setters@[i].0,
                data: setters@[i].1,
            }),
{
    let ghost orig = setters@;
    let mut w: Vec<WriteAccess> = Vec::new();
    for p in it: setters.into_iter()
        invariant
            it.seq() == orig,
            w@ == write_accesses_of(orig.take(it.index() as int)),
    {
        let ghost i = it.index() as int;
        let (rng, data) = p;
        w.push(WriteAccess::new(rng, data));
        proof {
            assert(orig.take(i + 1) =~= orig.take(i).push(orig[i]));
            assert(w@ =~= write_accesses_of(orig.take(i + 1)));
        }
    }
    proof {
        assert(orig.take(orig.len() as int) =~= orig);
        lemma_writes_follow_setters(orig);
    }
    w
}

impl DBInstruction {
    /// The instruction that saves the store to `path`.
    pub fn saveas(path: &String) -> (r: DBInstruction)
        ensures
            r == DBInstruction::Save(*path),
    {
        DBInstruction::Save(path.clone())
    }

    /// The instruction that writes the bitmaps `setters` into table `tbl`.
    pub fn bin_put_many(tbl: &String, setters: Vec<(Range, Vec<u8>)>) -> (r: DBInstruction)
        ensures
            r matches DBInstruction::BPut(t, w) && t == *tbl && w@ == write_accesses_of(setters@),
            r matches DBInstruction::BPut(t, w) && w@.len() == setters@.len() && forall|i: int|
                0 <= i < setters@.len() ==> #[trigger] w@[i] == (WriteAccess {
                    rng: setters@[i].0,
                    data: setters@[i].1,
                }),
    {
        DBInstruction::BPut(tbl.clone(), write_accesses(setters))
    }

    /// The instruction that writes one bitmap: that of `bin_put_many` on a
    /// list of one.
    pub fn bin_put(tbl: &String, rng: Range, data: Vec<u8>) -> (r: DBInstruction)
        ensures
            r matches DBInstruction::BPut(t, w) && t == *tbl && w@ == write_accesses_of(
                seq![(rng, data)],
            ),
            r matches DBInstruction::BPut(t, w) && w@ == seq![WriteAccess { rng: rng, data: data }],
    {
        DBInstruction::bin_put_many(tbl, vec![(rng, data)])
    }

    /// The instruction that reads the bitmaps of `tbl` over `ranges`.
    pub fn bin_get_many(tbl: &String, ranges: Vec<Range>) -> (r: DBInstruction)
        ensures
            r matches DBInstruction::BGet(t, q) && t == *tbl && q@ == ranges@,
    {
        DBInstruction::BGet(tbl.clone(), ranges)
    }

    /// The instruction that reads the bitmaps of `tbl` over one range: that
    /// of `bin_get_many` on a list of one.
    pub fn bin_get(tbl: &String, rng: Range) -> (r: DBInstruction)
        ensures
            r matches DBInstruction::BGet(t, q) && t == *tbl && q@ == seq![rng],
    {
        DBInstruction::bin_get_many(tbl, vec![rng])
    }

    /// The instruction that deletes the bitmap contents of `tbl` over `ranges`.
    pub fn bin_del_many(tbl: &String, ranges: Vec<Range>) -> (r: DBInstruction)
        ensures
            r matches DBInstruction::BDel(t, q) && t == *tbl && q@ == ranges@,
    {
        DBInstruction::BDel(tbl.clone(), ranges)
    }

    /// The instruction that deletes the bitmap contents of `tbl` over one
    /// range: that of `bin_del_many` on a list of one.
    pub fn bin_del(tbl: &String, rng: Range) -> (r: DBInstruction)
        ensures
            r matches DBInstruction::BDel(t, q) && t == *tbl && q@ == seq![rng],
    {
        DBInstruction::bin_del_many(tbl, vec![rng])
    }

    /// The instruction that stores the encoded objects `args` into `tbl`.
    pub fn obj_put_raw_many(tbl: &String, args: Vec<(Range, Vec<u8>)>) -> (r: DBInstruction)
        ensures
            r matches DBInstruction::OPut(t, w) && t == *tbl && w@ == write_accesses_of(args@),
            r matches DBInstruction::OPut(t, w) && w@.len() == args@.len() && forall|i: int|
                0 <= i < args@.len() ==> #[trigger] w@[i] == (WriteAccess {
                    rng: args@[i].0,
                    data: args@[i].1,
                }),
    {
        DBInstruction::OPut(tbl.clone(), write_accesses(args))
    }

    /// The instruction that stores one encoded object: that of
    /// `obj_put_raw_many` on a list of one.
    pub fn obj_put_raw(tbl: &String, range: Range, obj: Vec<u8>) -> (r: DBInstruction)
        ensures
            r matches DBInstruction::OPut(t, w) && t == *tbl && w@ == write_accesses_of(
                seq![(range, obj)],
            ),
            r matches DBInstruction::OPut(t, w) && w@ == seq![WriteAccess { rng: range, data: obj }],
    {
        DBInstruction::obj_put_raw_many(tbl, vec![(range, obj)])
    }

    /// The instruction that reads the objects of `tbl` that meet `ranges`.
    pub fn obj_get_many(tbl: &String, ranges: Vec<Range>) -> (r: DBInstruction)
        ensures
            r matches DBInstruction::OGet(t, q) && t == *tbl && q@ == ranges@,
    {
        DBInstruction::OGet(tbl.clone(), ranges)
    }

    /// The instruction that reads the objects of `tbl` that meet one range:
    /// that of `obj_get_many` on a list of one.
    pub fn obj_get(tbl: &String, rng: Range) -> (r: DBInstruction)
        ensures
            r matches DBInstruction::OGet(t, q) && t == *tbl && q@ == seq![rng],
    {
        DBInstruction::obj_get_many(tbl, vec![rng])
    }

    /// The instruction that deletes the objects of `tbl` stored at `ranges`.
    pub fn obj_del_many(tbl: &String, ranges: Vec<Range>) -> (r: DBInstruction)
        ensures
            r matches DBInstruction::ODel(t, q) && t == *tbl && q@ == ranges@,
    {
        DBInstruction::ODel(tbl.clone(), ranges)
    }

    /// The instruction that deletes the object of `tbl` stored at one range:
    /// that of `obj_del_many` on a list of one.
    pub fn obj_del(tbl: &String, rng: Range) -> (r: DBInstruction)
        ensures
            r matches DBInstruction::ODel(t, q) && t == *tbl && q@ == seq![rng],
    {
        DBInstruction::obj_del_many(tbl, vec![rng])
    }

    /// The instruction that deletes every object of `tbl` meeting one of `ranges`.
    pub fn obj_del_intersecting_many(tbl: &String, ranges: Vec<Range>) -> (r: DBInstruction)
        ensures
            r matches DBInstruction::ODelAll(t, q) && t == *tbl && q@ == ranges@,
    {
        DBInstruction::ODelAll(tbl.clone(), ranges)
    }

    /// The instruction that deletes every object of `tbl` meeting one range:
    /// that of `obj_del_intersecting_many` on a list of one.
    pub fn obj_del_intersecting(tbl: &String, rng: Range) -> (r: DBInstruction)
        ensures
            r matches DBInstruction::ODelAll(t, q) && t == *tbl && q@ == seq![rng],
    {
        DBInstruction::obj_del_intersecting_many(tbl, vec![rng])
    }
}

/// An answer of the table server.
#[derive(Clone, Debug, PartialEq, Eq)]
pub enum DBAnswer {
    /// Per query range, the bitmaps found for it.
    Bitmap(Vec<(Range, Vec<(Range, Bitmap)>)>),
    /// Per query range, the encoded objects found for it.
    Tags(Vec<(Range, Vec<(Range, Vec<u8>)>)>),
    /// An answer of any other kind.
    Other,
}

/// The triples that an answer's content stands for: group by group, the
/// pairs found for each query range, tagged with that range.
pub open spec fn flatten_answer<T>(content: Seq<(Range, Vec<(Range, T)>)>) -> Seq<
    (Range, Range, T),
>
    decreases content.len(),
{
    if content.len() == 0 {
        Seq::empty()
    } else {
        flatten_answer(content.drop_last()) + tag_with(content.last().0, content.last().1@)
    }
}

/// A reading over the query ranges of an answer's groups, whose queries
/// found what those groups hold, hands out exactly the triples the answer
/// stands for: a read of the local store and a read through the server
/// agree on the same findings.
pub proof fn lemma_reading_agrees_with_answer<T>(content: Seq<(Range, Vec<(Range, T)>)>)
    ensures
        expected_items(
            content.map_values(|g: (Range, Vec<(Range, T)>)| g.0),
            content.map_values(|g: (Range, Vec<(Range, T)>)| Some(g.1@)),
        ) == flatten_answer(content),
    decreases content.len(),
{
    if content.len() > 0 {
        let init = content.drop_last();
        let last = content.last();
        lemma_reading_agrees_with_answer(init);
        let ranges = content.map_values(|g: (Range, Vec<(Range, T)>)| g.0);
        let answers = content.map_values(|g: (Range, Vec<(Range, T)>)| Some(g.1@));
        let init_ranges = init.map_values(|g: (Range, Vec<(Range, T)>)| g.0);
        let init_answers = init.map_values(|g: (Range, Vec<(Range, T)>)| Some(g.1@));
        assert(ranges =~= init_ranges.push(last.0));
        assert(answers =~= init_answers.push(Some(last.1@)));
        lemma_expected_items_push(ranges, init_answers, Some(last.1@));
        lemma_expected_items_extra_range(init_ranges, init_answers, last.0);
    } else {
        assert(content.map_values(|g: (Range, Vec<(Range, T)>)| Some(g.1@)).len() == 0);
    }
}

/// Hands out the content of an answer as triples, in order.
fn flatten_content<T>(content: Vec<(Range, Vec<(Range, T)>)>) -> (r: Vec<(Range, Range, T)>)
    ensures
        r@ == flatten_answer(content@),
{
    let ghost orig = content@;
    let mut out: Vec<(Range, Range, T)> = Vec::new();
    for group in it: content.into_iter()
        invariant
            it.seq() == orig,
            out@ == flatten_answer(orig.take(it.index() as int)),
    {
        let ghost i = it.index() as int;
        let ghost base = out@;
        let (q, found) = group;
        let ghost found_seq = found@;
        for pair in jt: found.into_iter()
            invariant
                jt.seq() == found_seq,
                out@ == base + tag_with(q, found_seq.take(jt.index() as int)),
        {
            let ghost j = jt.index() as int;
            let (f, d) = pair;
            out.push((q, f, d));
            proof {
                assert(found_seq.take(j + 1) =~= found_seq.take(j).push(found_seq[j]));
                assert(out@ =~= base + tag_with(q, found_seq.take(j + 1)));
            }
        }
        proof {
            assert(found_seq.take(found_seq.len() as int) =~= found_seq);
            assert(orig.take(i + 1).drop_last() =~= orig.take(i));
            assert(orig.take(i + 1).last() == orig[i]);
        }
    }
    proof {
        assert(orig.take(orig.len() as int) =~= orig);
    }
    out
}

/// Reads the answer to a bitmap read: a `Bitmap` answer gives its triples;
/// any other answer is refused with `UnexpectedResponse` and the message
/// "Expected bitmap, got " followed by `answer_text`, the rendering of the
/// answer as received.
pub fn bitmap_answer_items(answer: DBAnswer, answer_text: &str) -> (r: DBResult<
    Vec<(Range, Range, Bitmap)>,
>)
    ensures
        match answer {
            DBAnswer::Bitmap(content) => r matches Ok(items) && items@ == flatten_answer(
                content@,
            ),
            _ => r matches Err(DBInterfaceError::UnexpectedResponse(msg)) && msg@
                == "Expected bitmap, got "@ + answer_text@,
        },
{
    match answer {
        DBAnswer::Bitmap(content) => Ok(flatten_content(content)),
        _ => {
            let mut msg = String::from_str("Expected bitmap, got ");
            msg.append(answer_text);
            Err(DBInterfaceError::UnexpectedResponse(msg))
        },
    }
}

/// Reads the answer to an object read: a `Tags` answer gives its triples;
/// any other answer is refused with `UnexpectedResponse` and the message
/// "Expected object, got " followed by `answer_text`, the rendering of the
/// answer as received.
pub fn object_answer_items(answer: DBAnswer, answer_text: &str) -> (r: DBResult<
    Vec<(Range, Range, Vec<u8>)>,
>)
    ensures
        match answer {
            DBAnswer::Tags(content) => r matches Ok(items) && items@ == flatten_answer(content@),
            _ => r matches Err(DBInterfaceError::UnexpectedResponse(msg)) && msg@
                == "Expected object, got "@ + answer_text@,
        },
{
    match answer {
        DBAnswer::Tags(content) => Ok(flatten_content(content)),
        _ => {
            let mut msg = String::from_str("Expected object, got ");
            msg.append(answer_text);
            Err(DBInterfaceError::UnexpectedResponse(msg))
        },
    }
}

} // verus!
