pub mod classfile;
pub mod filesys;
pub mod vm;

use vstd::prelude::*;

verus! {

} // verus!
