//! The JavaScript bindings generated for a configuration struct: each
//! named field gets a getter named after it and a setter `set_{field}`.

use vstd::prelude::*;
use crate::text::{owned, string_push_str};

verus! {

/// The getter and setter names of the fields `fields`, in order.
pub fn accessor_names(fields: &Vec<String>) -> (res: Vec<(String, String)>)
    ensures
        res@.len() == fields@.len(),
        forall|i: int|
            0 <= i < fields@.len() ==> (#[trigger] res@[i]).0@ == fields@[i]@ && res@[i].1@ == "set_"@
                + fields@[i]@,
{
    let mut out: Vec<(String, String)> = Vec::new();
    let mut k: usize = 0;
    while k < fields.len()
        invariant
            k <= fields@.len(),
            out@.len() == k,
            forall|i: int|
                0 <= i < k ==> (#[trigger] out@[i]).0@ == fields@[i]@ && out@[i].1@ == "set_"@ + fields@[i]@,
        decreases fields@.len() - k,
    {
        let getter = owned(fields[k].as_str());
        let mut setter = owned("set_");
        string_push_str(&mut setter, fields[k].as_str());
        out.push((getter, setter));
        k = k + 1;
    }
    out
}

} // verus!
