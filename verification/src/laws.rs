//! The library's general guarantees, stated once and proved for every
//! input.

use vstd::prelude::*;
use crate::cursor::all_records;
use crate::cursor::consumed;
use crate::expr::Expr;
use crate::expr::render_list;
use crate::expr::render_spec;

verus! {

/// Law: a raw fragment renders as its own text, unchanged and unescaped,
/// whatever characters it holds — the empty string included.
pub proof fn lemma_raw_passthrough(s: String)
    ensures
        render_spec(Expr::Raw(s)) == s@,
{
}

/// Law: a conjunction renders as its children's renderings joined by
/// single spaces.
pub proof fn lemma_and_is_space_join(children: Vec<Expr>)
    ensures
        render_spec(Expr::And(children)) == render_list(children@, " "@),
{
}

/// Law: a disjunction of more than one child is wrapped in parentheses;
/// one of a single child renders as that child alone, with no
/// parentheses added.
pub proof fn lemma_or_grouping(children: Vec<Expr>)
    ensures
        children@.len() > 1 ==> render_spec(Expr::Or(children)) == "("@ + render_list(
            children@,
            " OR "@,
        ) + ")"@,
        children@.len() == 1 ==> render_spec(Expr::Or(children)) == render_spec(children@[0]),
{
}

/// Law: joining the concatenation of two non-empty lists joins each part
/// and puts exactly one separator between them.
pub proof fn lemma_join_concat(a: Seq<Expr>, b: Seq<Expr>, sep: Seq<char>)
    requires
        a.len() > 0,
        b.len() > 0,
    ensures
        render_list(a + b, sep) == render_list(a, sep) + sep + render_list(b, sep),
    decreases a.len(),
{
    if a.len() == 1 {
        assert((a + b).drop_first() =~= b);
        assert((a + b)[0] == a[0]);
    } else {
        lemma_join_concat(a.drop_first(), b, sep);
        assert((a + b).drop_first() =~= a.drop_first() + b);
        assert(render_list(a + b, sep) =~= render_list(a, sep) + sep + render_list(b, sep));
    }
}

/// Law: replacing one entry of a join by a non-empty list that joins to
/// the same text leaves the whole join unchanged.
pub proof fn lemma_join_splice(pre: Seq<Expr>, x: Expr, mid: Seq<Expr>, post: Seq<Expr>, sep: Seq<
    char,
>)
    requires
        mid.len() > 0,
        render_spec(x) == render_list(mid, sep),
    ensures
        render_list(pre + seq![x] + post, sep) == render_list(pre + mid + post, sep),
{
    if pre.len() == 0 && post.len() == 0 {
        assert(pre + seq![x] + post =~= seq![x]);
        assert(pre + mid + post =~= mid);
    } else if pre.len() == 0 {
        lemma_join_concat(seq![x], post, sep);
        lemma_join_concat(mid, post, sep);
        assert(pre + seq![x] + post =~= seq![x] + post);
        assert(pre + mid + post =~= mid + post);
        assert(render_list(seq![x], sep) == render_spec(x));
        assert(render_list(pre + seq![x] + post, sep) =~= render_list(pre + mid + post, sep));
    } else if post.len() == 0 {
        lemma_join_concat(pre, seq![x], sep);
        lemma_join_concat(pre, mid, sep);
        assert(pre + seq![x] + post =~= pre + seq![x]);
        assert(pre + mid + post =~= pre + mid);
        assert(render_list(seq![x], sep) == render_spec(x));
        assert(render_list(pre + seq![x] + post, sep) =~= render_list(pre + mid + post, sep));
    } else {
        lemma_join_concat(seq![x], post, sep);
        lemma_join_concat(mid, post, sep);
        lemma_join_concat(pre, seq![x] + post, sep);
        lemma_join_concat(pre, mid + post, sep);
        assert(pre + seq![x] + post =~= pre + (seq![x] + post));
        assert(pre + mid + post =~= pre + (mid + post));
        assert(render_list(seq![x], sep) == render_spec(x));
        assert(render_list(pre + seq![x] + post, sep) =~= render_list(pre + mid + post, sep));
    }
}

/// Law: flattening a nested, non-empty conjunction into the surrounding
/// conjunction leaves the rendering unchanged — conjunction rendering is
/// associative under regrouping.
pub proof fn lemma_and_flatten(whole: Vec<Expr>, pre: Seq<Expr>, inner: Vec<Expr>, post: Seq<
    Expr,
>, flat: Vec<Expr>)
    requires
        inner@.len() > 0,
        whole@ == pre + seq![Expr::And(inner)] + post,
        flat@ == pre + inner@ + post,
    ensures
        render_spec(Expr::And(whole)) == render_spec(Expr::And(flat)),
{
    lemma_join_splice(pre, Expr::And(inner), inner@, post, " "@);
}

/// Law: a consumption that supplies every page the service hands back
/// yields every record of every page, in service order and across all
/// page boundaries — none skipped, none repeated — and nothing more.
/// The side conditions say only that the supplied pages line up with the
/// continuations: a continuation is pending exactly while a further page
/// exists.
pub proof fn lemma_cursor_yields_every_record<R>(
    rem: Seq<R>,
    more: bool,
    pages: Seq<(Seq<R>, bool)>,
)
    requires
        more <==> pages.len() > 0,
        forall|i: int| 0 <= i < pages.len() ==> (#[trigger] pages[i].1 <==> i < pages.len() - 1),
    ensures
        consumed(rem, more, pages) == rem + all_records(pages),
    decreases pages.len(), rem.len(),
{
    if rem.len() > 0 {
        lemma_cursor_yields_every_record(rem.drop_first(), more, pages);
        assert(consumed(rem, more, pages) =~= rem + all_records(pages));
    } else if more && pages.len() > 0 {
        let next = pages.drop_first();
        assert forall|i: int| 0 <= i < next.len() implies (#[trigger] next[i].1 <==> i < next.len()
            - 1) by {
            assert(next[i] == pages[i + 1]);
        }
        lemma_cursor_yields_every_record(pages[0].0, pages[0].1, next);
        assert(consumed(rem, more, pages) =~= rem + all_records(pages));
    } else {
        assert(consumed(rem, more, pages) =~= rem + all_records(pages));
    }
}

} // verus!
