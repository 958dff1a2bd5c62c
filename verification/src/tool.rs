//! The tool that caused an event.

use vstd::prelude::*;

verus! {

/// A physical tool, such as a pen or an eraser. Many events come from one
/// tool, and a tool outlives every one of them.
///
/// Two values are the same tool exactly when they hold the same address.
#[derive(Debug, PartialEq, Eq, Hash, Structural)]
pub struct TabletTool {
    handle: usize,
}

impl View for TabletTool {
    type V = usize;

    /// The address of the tool in the device library.
    closed spec fn view(&self) -> usize {
        self.handle
    }
}

impl TabletTool {
    /// Names the tool at an address of the device library.
    pub fn from_raw(handle: usize) -> (tool: Self)
        ensures
            tool@ == handle,
    {
        TabletTool { handle }
    }

    /// The address of the tool in the device library.
    pub fn as_raw(&self) -> (handle: usize)
        ensures
            handle == self@,
    {
        self.handle
    }
}

impl Clone for TabletTool {
    fn clone(&self) -> (copy: Self)
        ensures
            copy == *self,
    {
        TabletTool { handle: self.handle }
    }
}

} // verus!
