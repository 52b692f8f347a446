use vstd::prelude::*;

verus! {

/// The identifier of the one structured-data block that each record carries.
pub open spec fn block_id_spec() -> Seq<char> {
    seq!['s', 'l', 'o', 'g']
}

/// A named, ordered list of key-value pairs.  Duplicate keys are kept.
pub struct StructuredDataBlock {
    pub id: String,
    pub pairs: Vec<(String, String)>,
}

/// The pairs of a list, as text.
pub open spec fn pairs_view(pairs: Seq<(String, String)>) -> Seq<(Seq<char>, Seq<char>)> {
    pairs.map_values(|p: (String, String)| (p.0@, p.1@))
}

impl StructuredDataBlock {
    /// The block's identifier and pairs, as text.
    pub open spec fn view(&self) -> (Seq<char>, Seq<(Seq<char>, Seq<char>)>) {
        (self.id@, pairs_view(self.pairs@))
    }

    /// The block that holds the call-site pairs followed by the context
    /// pairs, under the identifier `slog`.
    pub open spec fn merged_from(
        &self,
        call_site: Seq<(String, String)>,
        context: Seq<(String, String)>,
    ) -> bool {
        &&& self.id@ == block_id_spec()
        &&& self.pairs@ == call_site + context
    }
}

/// Appends copies of the pairs of `src`, in order, to `dst`.
fn append_pairs(dst: &mut Vec<(String, String)>, src: &Vec<(String, String)>)
    ensures
        final(dst)@ == old(dst)@ + src@,
{
    let ghost start = dst@;
    let mut i: usize = 0;
    while i < src.len()
        invariant
            i <= src@.len(),
            dst@ == start + src@.subrange(0, i as int),
        decreases src@.len() - i,
    {
        let key = src[i].0.clone();
        let value = src[i].1.clone();
        dst.push((key, value));
        i = i + 1;
        assert(src@.subrange(0, i as int) == src@.subrange(0, i - 1 as int).push(src@[i - 1]));
    }
    assert(src@.subrange(0, i as int) == src@);
}

/// Flattens the call-site fields and then the context fields, each in its
/// own order, into one block named `slog`.  Nothing is deduplicated, and the
/// block is there even when both sources are empty.
pub fn collect_structured(
    call_site: &Vec<(String, String)>,
    context: &Vec<(String, String)>,
) -> (r: StructuredDataBlock)
    ensures
        r.merged_from(call_site@, context@),
{
    let mut pairs: Vec<(String, String)> = Vec::new();
    append_pairs(&mut pairs, call_site);
    append_pairs(&mut pairs, context);
    assert(pairs@ == call_site@ + context@);
    let id = String::from_str("slog");
    proof {
        reveal_strlit("slog");
        assert(id@ =~= block_id_spec());
    }
    StructuredDataBlock { id, pairs }
}

/// Merging always yields the block named `slog`, empty exactly when both
/// sources are empty.
pub proof fn lemma_block_always_present(
    b: StructuredDataBlock,
    call_site: Seq<(String, String)>,
    context: Seq<(String, String)>,
)
    requires
        b.merged_from(call_site, context),
    ensures
        b@.0 == block_id_spec(),
        b@.1.len() == call_site.len() + context.len(),
        b@.1.len() == 0 <==> (call_site.len() == 0 && context.len() == 0),
{
}

/// Call-site pairs come first, context pairs after, each in its own order.
pub proof fn lemma_call_site_first(
    b: StructuredDataBlock,
    call_site: Seq<(String, String)>,
    context: Seq<(String, String)>,
)
    requires
        b.merged_from(call_site, context),
    ensures
        forall|i: int| 0 <= i < call_site.len() ==> #[trigger] b@.1[i] == (call_site[i].0@, call_site[i].1@),
        forall|j: int|
            0 <= j < context.len() ==> #[trigger] b@.1[call_site.len() + j] == (context[j].0@, context[j].1@),
{
    assert forall|j: int| 0 <= j < context.len() implies #[trigger] b@.1[call_site.len() + j] == (context[j].0@, context[j].1@) by {
        assert(b.pairs@[call_site.len() + j] == context[j]);
    }
}

} // verus!
