use vstd::prelude::*;
use crate::bundle::{AvatarBundle, OscMessage};

verus! {

/// Most messages that travel in one packet.
pub const CHUNK_SIZE: usize = 30;

/// The first `upto` chunks, one after the other.
pub open spec fn concat<T>(chunks: Seq<Vec<T>>, upto: int) -> Seq<T>
    decreases upto,
{
    if upto <= 0 {
        Seq::empty()
    } else {
        concat(chunks, upto - 1) + chunks[upto - 1]@
    }
}

/// Number of chunks of at most `size` that `count` items need.
pub open spec fn chunk_count(count: int, size: int) -> int {
    (count + size - 1) / size
}

/// `chunks` cuts `items` into runs of `size`: put together they give the
/// items back in order, every chunk but the last is full, and the last
/// is not empty.
pub open spec fn is_chunking<T>(items: Seq<T>, chunks: Seq<Vec<T>>, size: int) -> bool {
    &&& concat(chunks, chunks.len() as int) == items
    &&& chunks.len() == chunk_count(items.len() as int, size)
    &&& forall|i: int| 0 <= i < chunks.len() ==> 1 <= (#[trigger] chunks[i])@.len() <= size
    &&& forall|i: int| 0 <= i < chunks.len() - 1 ==> (#[trigger] chunks[i])@.len() == size
}

/// Cuts `items` into chunks of `size`.
pub fn chunked<T>(items: Vec<T>, size: usize) -> (chunks: Vec<Vec<T>>)
    requires
        size > 0,
    ensures
        is_chunking(items@, chunks@, size as int),
{
    let mut chunks: Vec<Vec<T>> = Vec::new();
    let mut rest: Vec<T> = items;
    let ghost mut done: int = 0;
    assert(items@.subrange(0, items@.len() as int) =~= items@);
    assert(chunks@.len() * size == 0) by (nonlinear_arith)
        requires
            chunks@.len() == 0,
    ;
    while rest.len() > size
        invariant
            size > 0,
            0 <= done <= items@.len(),
            done == chunks@.len() * size,
            rest@ == items@.subrange(done, items@.len() as int),
            concat(chunks@, chunks@.len() as int) == items@.subrange(0, done),
            forall|i: int| 0 <= i < chunks@.len() ==> (#[trigger] chunks@[i])@.len() == size,
        decreases rest@.len(),
    {
        let tail = rest.split_off(size);
        let ghost head = rest@;
        let ghost before = chunks@;
        chunks.push(rest);
        rest = tail;
        proof {
            lemma_concat_push(before, chunks@);
            assert(items@.subrange(0, done + size) =~= items@.subrange(0, done) + head);
            assert(rest@ =~= items@.subrange(done + size, items@.len() as int));
            assert((before.len() + 1) * size == before.len() * size + size) by (nonlinear_arith);
            done = done + size;
        }
    }
    if rest.len() > 0 {
        let ghost last = rest@;
        let ghost before = chunks@;
        chunks.push(rest);
        proof {
            lemma_concat_push(before, chunks@);
            assert(items@.subrange(0, done) + last =~= items@);
            let n = items@.len() as int;
            let k = before.len() as int;
            assert((n + size - 1) / (size as int) == k + 1) by (nonlinear_arith)
                requires
                    n == k * size + last.len(),
                    1 <= last.len() <= size,
                    size > 0,
            ;
        }
    } else {
        proof {
            assert(items@.subrange(0, done) =~= items@);
            let k = chunks@.len() as int;
            assert((k * size + size - 1) / (size as int) == k) by (nonlinear_arith)
                requires
                    size > 0,
                    k >= 0,
            ;
        }
    }
    chunks
}

proof fn lemma_concat_push<T>(before: Seq<Vec<T>>, after: Seq<Vec<T>>)
    requires
        after.len() == before.len() + 1,
        forall|i: int| 0 <= i < before.len() ==> before[i] == after[i],
    ensures
        concat(after, after.len() as int) == concat(before, before.len() as int) + after[after.len()
            - 1]@,
{
    lemma_concat_same(before, after, before.len() as int);
}

proof fn lemma_concat_same<T>(a: Seq<Vec<T>>, b: Seq<Vec<T>>, upto: int)
    requires
        0 <= upto <= a.len(),
        upto <= b.len(),
        forall|i: int| 0 <= i < upto ==> a[i] == b[i],
    ensures
        concat(a, upto) == concat(b, upto),
    decreases upto,
{
    if upto > 0 {
        lemma_concat_same(a, b, upto - 1);
    }
}

/// How the messages of one tick travel: the first one alone, the others in chunks.
#[derive(Clone, Debug, PartialEq, Eq)]
pub struct Dispatch {
    /// The message that goes out on its own, ahead of the packets.
    pub fast: Option<OscMessage>,
    /// The packets, in the order in which they go out.
    pub chunks: Vec<Vec<OscMessage>>,
}

/// The messages of a dispatch in the order in which they go out.
pub open spec fn dispatched(plan: Dispatch) -> Seq<OscMessage> {
    match plan.fast {
        Some(m) => seq![m] + concat(plan.chunks@, plan.chunks@.len() as int),
        None => concat(plan.chunks@, plan.chunks@.len() as int),
    }
}

/// Decides how the messages of one tick travel. The first message goes out
/// on its own; the others follow in packets of thirty, in order. Nothing is
/// kept for the next tick.
pub fn plan_transport(bundle: AvatarBundle) -> (plan: Dispatch)
    ensures
        dispatched(plan) == bundle.content@,
        plan.fast is Some <==> bundle.content@.len() > 0,
        plan.fast matches Some(m) ==> m == bundle.content@[0],
        is_chunking(
            if bundle.content@.len() > 0 {
                bundle.content@.skip(1)
            } else {
                bundle.content@
            },
            plan.chunks@,
            CHUNK_SIZE as int,
        ),
{
    let mut content = bundle.content;
    if content.len() > 0 {
        let first = content.remove(0);
        let ghost rest = content@;
        assert(rest =~= bundle.content@.skip(1));
        let chunks = chunked(content, CHUNK_SIZE);
        assert(seq![first] + rest =~= bundle.content@);
        Dispatch { fast: Some(first), chunks }
    } else {
        let chunks = chunked(content, CHUNK_SIZE);
        Dispatch { fast: None, chunks }
    }
}

} // verus!
