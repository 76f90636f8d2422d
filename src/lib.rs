use vstd::prelude::*;

pub mod commit;
pub mod composer;
pub mod issue;
pub mod text;

verus! {

} // verus!
