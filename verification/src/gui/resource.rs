use vstd::prelude::*;
use crate::text::push_str;

verus! {

/// The path of resource file `file`: inside the `resources` directory.
pub fn get(file: String) -> (path: String)
    ensures
        path@ == "resources/"@ + file@,
{
    let mut path = String::new();
    push_str(&mut path, "resources/");
    push_str(&mut path, file.as_str());
    path
}

} // verus!
