//! Text embeddings: their size, how one is picked from the model's answer,
//! and how a vector is written as the JSON array that turso's `vector32()`
//! reads.
use vstd::prelude::*;
use crate::text::{
    item_offset,
    join,
    lemma_join_item,
    lemma_join_len,
    lemma_join_separator,
    push_joined,
    texts,
    total_len,
};

verus! {

/// The number of dimensions of an embedding.
pub const DIMS: usize = 384;

/// Why an embedding could not be had.
#[derive(Clone, Copy, Debug, PartialEq, Eq, Structural)]
pub enum EmbedError {
    /// The embedding model could not be loaded.
    LoadFailed,
    /// The model failed on the text.
    EmbedFailed,
    /// The model answered with no embedding.
    NoResult,
}

impl EmbedError {
    pub open spec fn text(self) -> Seq<char> {
        match self {
            EmbedError::LoadFailed => "Failed to load embedding model"@,
            EmbedError::EmbedFailed => "Embedding failed"@,
            EmbedError::NoResult => "Embedding model returned no results"@,
        }
    }

    /// The message that reports this error.
    pub fn message(&self) -> (s: String)
        ensures
            s@ == self.text(),
    {
        match self {
            EmbedError::LoadFailed => String::from_str("Failed to load embedding model"),
            EmbedError::EmbedFailed => String::from_str("Embedding failed"),
            EmbedError::NoResult => String::from_str("Embedding model returned no results"),
        }
    }
}

/// The embedding of the one text that was sent: the first that the model
/// returned, or `NoResult` when it returned none.
pub fn first_result<T>(results: Vec<T>) -> (r: Result<T, EmbedError>)
    ensures
        results@.len() == 0 <==> r == Err::<T, EmbedError>(EmbedError::NoResult),
        results@.len() > 0 ==> r == Ok::<T, EmbedError>(results@[0]),
{
    if results.len() == 0 {
        Err(EmbedError::NoResult)
    } else {
        let mut results = results;
        Ok(results.remove(0))
    }
}

/// `[` + the items separated by `,` + `]`.
pub open spec fn json_array_text(items: Seq<Seq<char>>) -> Seq<char> {
    seq!['['] + join(items, seq![',']) + seq![']']
}

/// Writes already rendered numbers as a JSON array, `[1,2,-3.5]`, the form
/// in which turso's `vector32()` takes a vector.
pub fn json_array(items: &Vec<String>) -> (s: String)
    ensures
        s@ == json_array_text(texts(items@)),
{
    proof {
        reveal_strlit("[");
        reveal_strlit(",");
        reveal_strlit("]");
        assert("["@ =~= seq!['[']);
        assert(","@ =~= seq![',']);
        assert("]"@ =~= seq![']']);
    }
    let mut s = String::from_str("[");
    push_joined(&mut s, items, ",");
    s.append("]");
    s
}

/// The JSON array of any number of items holds every item, in order, at its
/// place: `[`, then the items with a `,` after each but the last, then `]`,
/// and nothing else.
pub proof fn law_json_array_holds_every_item(items: Seq<Seq<char>>)
    ensures
        json_array_text(items).len() == 2 + total_len(items) + (if items.len() > 0 {
            items.len() - 1
        } else {
            0
        }),
        json_array_text(items)[0] == '[',
        json_array_text(items).last() == ']',
        forall|i: int|
            0 <= i < items.len() ==> json_array_text(items).subrange(
                1 + item_offset(items, i),
                1 + item_offset(items, i) + items[i].len(),
            ) == items[i],
        forall|i: int|
            0 <= i < items.len() - 1 ==> json_array_text(items)[1 + item_offset(items, i)
                + items[i].len()] == ',',
{
    let j = join(items, seq![',']);
    let t = json_array_text(items);
    lemma_join_len(items, ',');
    assert forall|i: int| 0 <= i < items.len() implies t.subrange(
        1 + item_offset(items, i),
        1 + item_offset(items, i) + items[i].len(),
    ) == items[i] by {
        lemma_join_item(items, ',', i);
        assert(t.subrange(1 + item_offset(items, i), 1 + item_offset(items, i) + items[i].len())
            =~= j.subrange(item_offset(items, i), item_offset(items, i) + items[i].len()));
    }
    assert forall|i: int| 0 <= i < items.len() - 1 implies t[1 + item_offset(items, i)
        + items[i].len()] == ',' by {
        lemma_join_item(items, ',', i);
        lemma_join_separator(items, ',', i);
        let k = item_offset(items, i) + items[i].len();
        assert(t == seq!['['] + j + seq![']']);
        assert(t[1 + k] == j[k]);
    }
}

} // verus!
