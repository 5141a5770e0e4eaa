use vstd::prelude::*;
use crate::bytes::{spec_in_memory, words_to_bytes};

verus! {

/// A fixed-size record of scalar words, as a buffer holds it.
pub trait Record: Sized {
    /// Words in one record.
    spec fn spec_word_count() -> nat;

    /// The words of the record, in memory order.
    spec fn spec_words(&self) -> Seq<u32>;

    /// Every record has the same number of words, and at least one.
    proof fn lemma_word_count(&self)
        ensures
            self.spec_words().len() == Self::spec_word_count(),
            Self::spec_word_count() > 0,
    ;

    /// Appends the words of the record to `out`.
    fn push_words(&self, out: &mut Vec<u32>)
        ensures
            final(out)@ == old(out)@ + self.spec_words(),
    ;
}

/// The words of a run of records: one record after the other, with nothing
/// in between.
pub open spec fn spec_flatten<T: Record>(records: Seq<T>) -> Seq<u32>
    decreases records.len(),
{
    if records.len() == 0 {
        Seq::empty()
    } else {
        spec_flatten(records.drop_last()) + records.last().spec_words()
    }
}

/// Word `k` of a flattened run is word `k % n` of record `k / n`, where `n`
/// is the record size.
pub proof fn lemma_flatten_index<T: Record>(records: Seq<T>, k: int)
    requires
        0 <= k < records.len() * T::spec_word_count(),
    ensures
        spec_flatten(records).len() == records.len() * T::spec_word_count(),
        0 <= k / (T::spec_word_count() as int) < records.len(),
        spec_flatten(records)[k] == records[k / (T::spec_word_count() as int)].spec_words()[k % (
        T::spec_word_count() as int)],
    decreases records.len(),
{
    let n = T::spec_word_count() as int;
    lemma_flatten_len(records);
    let last = records.last();
    last.lemma_word_count();
    let head = records.drop_last();
    lemma_flatten_len(head);
    assert(records.len() * n == head.len() * n + n) by (nonlinear_arith)
        requires
            records.len() == head.len() + 1,
    ;
    if k < head.len() * n {
        lemma_flatten_index(head, k);
    } else {
        let r = k - head.len() * n;
        assert(k == head.len() * n + r);
        assert(k / n == head.len() && k % n == r) by (nonlinear_arith)
            requires
                k == head.len() * n + r,
                0 <= r < n,
        ;
    }
}

/// A flattened run has the record size for every record.
pub proof fn lemma_flatten_len<T: Record>(records: Seq<T>)
    ensures
        spec_flatten(records).len() == records.len() * T::spec_word_count(),
    decreases records.len(),
{
    if records.len() > 0 {
        lemma_flatten_len(records.drop_last());
        records.last().lemma_word_count();
        assert(records.len() * T::spec_word_count() == records.drop_last().len()
            * T::spec_word_count() + T::spec_word_count()) by (nonlinear_arith)
            requires
                records.len() == records.drop_last().len() + 1,
        ;
    }
}

/// Lays a run of records out as words.
pub fn flatten<T: Record>(records: &Vec<T>) -> (out: Vec<u32>)
    ensures
        out@ == spec_flatten(records@),
        out@.len() == records@.len() * T::spec_word_count(),
{
    let mut out: Vec<u32> = Vec::new();
    let mut i: usize = 0;
    while i < records.len()
        invariant
            i <= records.len(),
            out@ == spec_flatten(records@.take(i as int)),
        decreases records.len() - i,
    {
        records[i].push_words(&mut out);
        proof {
            assert(records@.take(i + 1).drop_last() =~= records@.take(i as int));
        }
        i = i + 1;
    }
    proof {
        assert(records@.take(i as int) =~= records@);
        lemma_flatten_len(records@);
    }
    out
}

/// The bytes of a run of records as they lie in memory, four for each word.
pub fn to_bytes<T: Record>(records: &Vec<T>) -> (out: Vec<u8>)
    ensures
        spec_in_memory(spec_flatten(records@), out@),
        out@.len() == 4 * (records@.len() * T::spec_word_count()),
{
    let words = flatten(records);
    words_to_bytes(&words)
}

} // verus!
