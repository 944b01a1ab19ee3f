use vstd::prelude::*;

verus! {

/// The highest transaction id age over the databases of a sample, `None`
/// without databases.
pub fn highest_age(ages: &Vec<i32>) -> (r: Option<i32>)
    ensures
        ages.len() == 0 <==> r is None,
        r matches Some(m) ==> (forall|i: int| 0 <= i < ages.len() ==> ages@[i] <= m) && exists|i: int|
            0 <= i < ages.len() && ages@[i] == m,
{
    if ages.len() == 0 {
        return None;
    }
    let mut m = ages[0];
    let mut i: usize = 1;
    while i < ages.len()
        invariant
            1 <= i <= ages.len(),
            forall|j: int| 0 <= j < i ==> ages@[j] <= m,
            exists|j: int| 0 <= j < ages.len() && ages@[j] == m,
        decreases ages.len() - i,
    {
        if ages[i] > m {
            m = ages[i];
        }
        i = i + 1;
    }
    Some(m)
}

} // verus!
