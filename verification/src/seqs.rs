//! Facts about the views of vectors.

use vstd::prelude::*;

verus! {

/// Pushing an element onto a vector pushes its view onto the vector's view.
pub proof fn lemma_deep_view_push<T: DeepView>(before: Vec<T>, after: Vec<T>, last: T)
    requires
        after@ == before@.push(last),
    ensures
        after.deep_view() == before.deep_view().push(last.deep_view()),
{
    assert(after.deep_view() =~= before.deep_view().push(last.deep_view())) by {
        assert forall|i: int| 0 <= i < after@.len() implies after.deep_view()[i]
            == before.deep_view().push(last.deep_view())[i] by {
            if i < before@.len() {
                assert(after@[i] == before@[i]);
            } else {
                assert(after@[i] == last);
            }
        }
    }
}

/// Vectors with the same elements have the same view.
pub proof fn lemma_deep_view_same<T: DeepView>(a: Vec<T>, b: Vec<T>)
    requires
        a@ == b@,
    ensures
        a.deep_view() == b.deep_view(),
{
    assert(a.deep_view() =~= b.deep_view());
}

/// Writing one element of a vector writes its view into the vector's view.
pub proof fn lemma_deep_view_update<T: DeepView>(before: Vec<T>, after: Vec<T>, at: int, item: T)
    requires
        0 <= at < before@.len(),
        after@ == before@.update(at, item),
    ensures
        after.deep_view() == before.deep_view().update(at, item.deep_view()),
{
    assert(after.deep_view() =~= before.deep_view().update(at, item.deep_view())) by {
        assert forall|i: int| 0 <= i < after@.len() implies after.deep_view()[i]
            == before.deep_view().update(at, item.deep_view())[i] by {
            if i != at {
                assert(after@[i] == before@[i]);
            }
        }
    }
}

/// Appending vectors appends their views.
pub proof fn lemma_deep_view_append<T: DeepView>(front: Vec<T>, back: Vec<T>, whole: Vec<T>)
    requires
        whole@ == front@ + back@,
    ensures
        whole.deep_view() == front.deep_view() + back.deep_view(),
{
    assert(whole.deep_view() =~= front.deep_view() + back.deep_view()) by {
        assert forall|i: int| 0 <= i < whole@.len() implies whole.deep_view()[i] == (
        front.deep_view() + back.deep_view())[i] by {
            if i < front@.len() {
                assert(whole@[i] == front@[i]);
            } else {
                assert(whole@[i] == back@[i - front@.len()]);
            }
        }
    }
}

} // verus!
