use vstd::prelude::*;
use vstd::string::*;

verus! {

/// The views of a list of tags.
pub open spec fn tag_views(tags: Seq<String>) -> Seq<Seq<char>> {
    tags.map_values(|t: String| t@)
}

/// The tags written one after another, with a comma between two neighbours.
pub open spec fn joined(tags: Seq<Seq<char>>) -> Seq<char>
    decreases tags.len(),
{
    if tags.len() == 0 {
        Seq::empty()
    } else if tags.len() == 1 {
        tags[0]
    } else {
        joined(tags.drop_last()) + seq![','] + tags.last()
    }
}

/// Joins tags into the single string that a snippet keeps.
pub fn join_tags(tags: &Vec<String>) -> (r: String)
    ensures
        r@ == joined(tag_views(tags@)),
{
    let mut r = String::new();
    let n = tags.len();
    let mut i: usize = 0;
    proof {
        assert(tag_views(tags@).take(0) =~= Seq::<Seq<char>>::empty());
    }
    while i < n
        invariant
            n == tags@.len(),
            0 <= i <= n,
            r@ == joined(tag_views(tags@).take(i as int)),
        decreases n - i,
    {
        let ghost prev = r@;
        proof {
            reveal_strlit(",");
        }
        if i > 0 {
            r.append(",");
        }
        r.append(tags[i].as_str());
        proof {
            let v = tag_views(tags@);
            let next = v.take(i as int + 1);
            assert(next.drop_last() =~= v.take(i as int));
            assert(next.last() == tags@[i as int]@);
            if i == 0 {
                assert(r@ =~= next[0]);
            } else {
                assert(r@ =~= prev + seq![','] + next.last());
            }
        }
        i = i + 1;
    }
    proof {
        assert(tag_views(tags@).take(n as int) =~= tag_views(tags@));
    }
    r
}

} // verus!
