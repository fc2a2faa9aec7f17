use vstd::prelude::*;

verus! {

/// One compute dispatch of a stage: which of the stage's pipelines runs,
/// and how many workgroups along x, y and z.
#[derive(Debug)]
pub struct Dispatch<P> {
    pub pass: P,
    pub x: u32,
    pub y: u32,
    pub z: u32,
}

} // verus!
