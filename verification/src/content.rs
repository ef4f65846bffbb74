//! The blocks a chapter's text is shown in, and how paragraphs of a
//! chapter page become them.
use vstd::prelude::*;
use crate::text::{concat2, concat3, same_text, chars_of, string_of_range};

verus! {

broadcast use vstd::string::group_string_axioms;

/// One block of a chapter's content.
#[derive(Debug)]
pub enum ContentBlock {
    Paragraph(String),
    BlockQuote(String),
    Divider,
}

/// The view of a `ContentBlock`.
pub enum BlockView {
    Paragraph(Seq<char>),
    BlockQuote(Seq<char>),
    Divider,
}

impl View for ContentBlock {
    type V = BlockView;

    open spec fn view(&self) -> BlockView {
        match self {
            ContentBlock::Paragraph(t) => BlockView::Paragraph(t@),
            ContentBlock::BlockQuote(t) => BlockView::BlockQuote(t@),
            ContentBlock::Divider => BlockView::Divider,
        }
    }
}

/// The views of a list of blocks.
pub open spec fn block_views(v: Seq<ContentBlock>) -> Seq<BlockView> {
    v.map_values(|b: ContentBlock| b@)
}

/// The text is wrapped in square brackets.
pub open spec fn is_bracketed(t: Seq<char>) -> bool {
    t.len() > 0 && t[0] == '[' && t.last() == ']'
}

/// The block a paragraph of text becomes: text in square brackets is a
/// quote of what stands between them, `***` is a divider, and anything
/// else is a paragraph of the same text.
pub open spec fn block_spec(t: Seq<char>) -> BlockView {
    if is_bracketed(t) {
        BlockView::BlockQuote(t.subrange(1, t.len() - 1))
    } else if t == "***"@ {
        BlockView::Divider
    } else {
        BlockView::Paragraph(t)
    }
}

/// The blocks of the paragraphs that have text, in order; a paragraph
/// without text gives no block.
pub open spec fn blocks_spec(texts: Seq<Option<Seq<char>>>) -> Seq<BlockView>
    decreases texts.len(),
{
    if texts.len() == 0 {
        Seq::<BlockView>::empty()
    } else {
        let init = blocks_spec(texts.drop_last());
        match texts.last() {
            Some(t) => init.push(block_spec(t)),
            None => init,
        }
    }
}

/// The views of a list of optional paragraph texts.
pub open spec fn opt_texts(v: Seq<Option<String>>) -> Seq<Option<Seq<char>>> {
    v.map_values(|o: Option<String>| match o {
        Some(s) => Some(s@),
        None => None,
    })
}

/// The paragraph that links to the chapter's page, to find its reviews.
pub open spec fn review_link_spec(label: Seq<char>, url: Seq<char>) -> Seq<char> {
    label + "[click here for chapter reviews.]("@ + url + ")"@
}

/// The block for one paragraph of text.
pub fn paragraph_block(content: String) -> (b: ContentBlock)
    ensures
        b@ == block_spec(content@),
{
    let v = chars_of(content.as_str());
    let n = v.len();
    if n > 0 && v[0] == '[' && v[n - 1] == ']' {
        let inner = string_of_range(&v, 1, n - 1);
        ContentBlock::BlockQuote(inner)
    } else if same_text(content.as_str(), "***") {
        ContentBlock::Divider
    } else {
        ContentBlock::Paragraph(content)
    }
}

/// The blocks of the paragraphs that have text.
pub fn paragraph_blocks(texts: Vec<Option<String>>) -> (r: Vec<ContentBlock>)
    ensures
        block_views(r@) == blocks_spec(opt_texts(texts@)),
{
    let mut r: Vec<ContentBlock> = Vec::new();
    let ghost all = opt_texts(texts@);
    for item in it: texts
        invariant
            all == opt_texts(it.seq()),
            block_views(r@) == blocks_spec(all.take(it.index() as int)),
    {
        let ghost i = it.index() as int;
        assert(all.take(i + 1).drop_last() =~= all.take(i));
        assert(all.take(i + 1).last() == all[i]);
        match item {
            Some(t) => {
                let ghost before = block_views(r@);
                let b = paragraph_block(t);
                r.push(b);
                assert(block_views(r@) =~= before.push(b@));
            },
            None => {},
        }
    }
    assert(all.take(all.len() as int) =~= all);
    r
}

/// Ends a chapter's blocks with a divider and the paragraph that links to
/// the chapter's page.
pub fn push_review_link(blocks: &mut Vec<ContentBlock>, label: &str, url: &str)
    ensures
        block_views(final(blocks)@) == block_views(old(blocks)@).push(BlockView::Divider).push(
            BlockView::Paragraph(review_link_spec(label@, url@)),
        ),
{
    let ghost before = block_views(blocks@);
    blocks.push(ContentBlock::Divider);
    let mid = concat3(label, "[click here for chapter reviews.](", url);
    let link = concat2(mid.as_str(), ")");
    proof {
        assert(link@ =~= review_link_spec(label@, url@));
    }
    blocks.push(ContentBlock::Paragraph(link));
    assert(block_views(blocks@) =~= before.push(BlockView::Divider).push(
        BlockView::Paragraph(review_link_spec(label@, url@)),
    ));
}


/// A paragraph wrapped in square brackets is shown as a quote of exactly
/// what the brackets wrap.
pub proof fn lemma_bracketed_is_quote(t: Seq<char>)
    ensures
        block_spec(seq!['['] + t + seq![']']) == BlockView::BlockQuote(t),
{
    let s = seq!['['] + t + seq![']'];
    assert(s[0] == '[');
    assert(s.last() == ']');
    assert(s.subrange(1, s.len() - 1) =~= t);
}

/// Each paragraph gives at most one block: the blocks are never more than
/// the paragraphs, and exactly as many when every paragraph has text.
pub proof fn lemma_blocks_count(texts: Seq<Option<Seq<char>>>)
    ensures
        blocks_spec(texts).len() <= texts.len(),
        (forall|i: int| 0 <= i < texts.len() ==> (#[trigger] texts[i]) is Some)
            ==> blocks_spec(texts).len() == texts.len(),
    decreases texts.len(),
{
    if texts.len() > 0 {
        lemma_blocks_count(texts.drop_last());
        if forall|i: int| 0 <= i < texts.len() ==> (#[trigger] texts[i]) is Some {
            assert forall|i: int| 0 <= i < texts.drop_last().len() implies (#[trigger] texts.drop_last()[i]) is Some by {
                assert(texts.drop_last()[i] == texts[i]);
            }
            assert(texts[texts.len() - 1] is Some);
        }
    }
}


/// A paragraph that is `***` is a divider, and any other paragraph that is
/// not wrapped in square brackets is a paragraph of the same text.
pub proof fn lemma_plain_paragraphs(t: Seq<char>)
    ensures
        block_spec("***"@) == BlockView::Divider,
        !(t.len() > 0 && t[0] == '[' && t.last() == ']') && t != "***"@
            ==> block_spec(t) == BlockView::Paragraph(t),
{
    reveal_strlit("***");
}

/// The review link reads `{label}[click here for chapter reviews.]({url})`.
pub proof fn lemma_review_link(label: Seq<char>, url: Seq<char>)
    ensures
        review_link_spec(label, url) == label + "[click here for chapter reviews.]("@ + url + ")"@,
{
}

} // verus!
