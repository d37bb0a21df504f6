use vstd::prelude::*;

verus! {

/// A list of strings as a list of texts.
pub open spec fn texts(list: Seq<String>) -> Seq<Seq<char>> {
    Seq::new(list.len(), |i: int| list[i]@)
}

/// A string that may be missing as a text that may be missing.
pub open spec fn text_of(name: Option<String>) -> Option<Seq<char>> {
    match name {
        Some(name) => Some(name@),
        None => None,
    }
}

/// A fresh list that holds the same texts as `list`.
pub fn copy_texts(list: &Vec<String>) -> (copy: Vec<String>)
    ensures
        texts(copy@) == texts(list@),
{
    let mut copy: Vec<String> = Vec::new();
    let mut at: usize = 0;
    while at < list.len()
        invariant
            at <= list.len(),
            copy.len() == at,
            texts(copy@) == texts(list@).take(at as int),
        decreases list.len() - at,
    {
        let ghost before = copy@;
        copy.push(list[at].clone());
        at += 1;
        assert forall|i: int| 0 <= i < at implies #[trigger] texts(copy@)[i] == list@[i]@ by {
            if i < at - 1 {
                assert(texts(before)[i] == texts(list@).take(at - 1)[i]);
            }
        }
        assert(texts(copy@) =~= texts(list@).take(at as int));
    }
    assert(texts(list@).take(at as int) == texts(list@));
    copy
}

} // verus!
