use vstd::prelude::*;

verus! {

use crate::construct::built_from;

/// Building a vector keeps every item in order, and building a vector again
/// from what the first one holds gives the same contents.
pub proof fn vec_round_trip<T>(src: Seq<T>)
    ensures
        built_from::<T, Vec<T>>(src) == Some(src),
        forall|c: Seq<T>|
            built_from::<T, Vec<T>>(src) == Some(c) ==> #[trigger] built_from::<T, Vec<T>>(c)
                == Some(c),
{
    assert(src.take(src.len() as int) =~= src);
}

/// Building an array again from the contents of an array that was built
/// gives the same contents.
pub proof fn array_round_trip<T, const N: usize>(src: Seq<T>)
    ensures
        forall|c: Seq<T>|
            built_from::<T, [T; N]>(src) == Some(c) ==> #[trigger] built_from::<T, [T; N]>(c)
                == Some(c),
{
    if src.len() >= N {
        assert(src.take(N as int).take(N as int) =~= src.take(N as int));
    }
}

} // verus!
