use vstd::prelude::*;

verus! {

/// Which root of a ray/surface quadratic `a t^2 + b t + c = 0` is the hit.
#[derive(Clone, Copy, Debug, PartialEq, Eq, Structural)]
pub enum Root {
    /// The smaller root.
    Near,
    /// The larger root.
    Far,
}

/// Chooses the hit among the two roots of a ray/surface quadratic, from the
/// sign of its discriminant and of each root. There is no hit when the
/// discriminant is not positive, nor when the larger root is not positive
/// (the surface lies wholly behind the ray's origin). Otherwise the hit is the
/// smaller root where it is positive, else the larger one (the origin lies
/// inside the surface).
pub fn pick_root(discriminant_positive: bool, near_positive: bool, far_positive: bool) -> (r:
    Option<Root>)
    ensures
        r is None <==> !discriminant_positive || !far_positive,
        r == Some(Root::Near) <==> discriminant_positive && far_positive && near_positive,
        r == Some(Root::Far) <==> discriminant_positive && far_positive && !near_positive,
{
    if !discriminant_positive || !far_positive {
        None
    } else if near_positive {
        Some(Root::Near)
    } else {
        Some(Root::Far)
    }
}

/// `i` is the first index of `keys` that holds a hit with the least key.
pub open spec fn is_nearest(keys: Seq<Option<u32>>, i: int) -> bool {
    &&& 0 <= i < keys.len()
    &&& keys[i] is Some
    &&& forall|j: int| 0 <= j < keys.len() && keys[j] is Some ==> keys[i]->0 <= keys[j]->0
    &&& forall|j: int| 0 <= j < i && keys[j] is Some ==> keys[i]->0 < keys[j]->0
}

/// Some index of `keys` holds a hit.
pub open spec fn any_hit(keys: Seq<Option<u32>>) -> bool {
    exists|j: int| 0 <= j < keys.len() && keys[j] is Some
}

/// The nearest hit among the shapes of a scene. `keys[i]` is the ordering key
/// of the hit on shape `i` (its distance rounded to a whole unit), or `None`
/// where the ray misses that shape. The result is the first shape whose key is
/// least, or `None` where every shape is missed.
pub fn nearest_hit(keys: &Vec<Option<u32>>) -> (r: Option<usize>)
    ensures
        r is None <==> !any_hit(keys@),
        r matches Some(i) ==> is_nearest(keys@, i as int),
{
    let mut best: Option<usize> = None;
    let mut i: usize = 0;
    while i < keys.len()
        invariant
            i <= keys.len(),
            best is None <==> !any_hit(keys@.take(i as int)),
            best matches Some(b) ==> is_nearest(keys@.take(i as int), b as int),
        decreases keys.len() - i,
    {
        proof {
            assert(keys@.take(i as int + 1) =~= keys@.take(i as int).push(keys@[i as int]));
        }
        if let Some(k) = keys[i] {
            match best {
                None => {
                    best = Some(i);
                },
                Some(b) => {
                    if let Some(kb) = keys[b] {
                        if k < kb {
                            best = Some(i);
                        }
                    }
                },
            }
        }
        proof {
            let t = keys@.take(i as int + 1);
            if best is None {
                assert forall|j: int| 0 <= j < t.len() implies !(t[j] is Some) by {
                    if j < i {
                        assert(keys@.take(i as int)[j] == t[j]);
                    }
                }
            } else {
                assert(t[i as int] == keys@[i as int]);
            }
        }
        i = i + 1;
    }
    proof {
        assert(keys@.take(keys.len() as int) =~= keys@);
    }
    best
}

} // verus!
