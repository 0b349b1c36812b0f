//! Lemmas connecting a vector's deep view to the views of its elements.

use vstd::prelude::*;

verus! {

/// A vector's deep view is as long as the vector and holds the deep view
/// of each element.
pub proof fn lemma_deep_view_index<T: DeepView>(v: Vec<T>)
    ensures
        v.deep_view().len() == v@.len(),
        forall|k: int| 0 <= k < v@.len() ==> v.deep_view()[k] == v@[k].deep_view(),
{
}

/// Pushing onto a vector pushes onto its deep view.
pub proof fn lemma_deep_view_push<T: DeepView>(pre: Vec<T>, post: Vec<T>, x: T)
    requires
        post@ == pre@.push(x),
    ensures
        post.deep_view() == pre.deep_view().push(x.deep_view()),
{
    lemma_deep_view_index(pre);
    lemma_deep_view_index(post);
    assert forall|k: int| 0 <= k < post@.len() implies post.deep_view()[k] == pre.deep_view().push(
        x.deep_view(),
    )[k] by {
        if k < pre@.len() {
        } else {
            assert(post@[k] == x);
        }
    }
    assert(post.deep_view() =~= pre.deep_view().push(x.deep_view()));
}

/// Concatenating vectors concatenates their deep views.
pub proof fn lemma_deep_view_concat<T: DeepView>(a: Vec<T>, b: Vec<T>, c: Vec<T>)
    requires
        c@ == a@ + b@,
    ensures
        c.deep_view() == a.deep_view() + b.deep_view(),
{
    lemma_deep_view_index(a);
    lemma_deep_view_index(b);
    lemma_deep_view_index(c);
    assert forall|k: int| 0 <= k < c@.len() implies c.deep_view()[k] == (a.deep_view()
        + b.deep_view())[k] by {
        if k < a@.len() {
            assert(c@[k] == a@[k]);
        } else {
            assert(c@[k] == b@[k - a@.len()]);
        }
    }
    assert(c.deep_view() =~= a.deep_view() + b.deep_view());
}

} // verus!
