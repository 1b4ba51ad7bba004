//! A stand-in for the window-subclass calls.

use vstd::prelude::*;

use crate::subclass::WindowMessage;

verus! {

/// Answers the calls of the window-subclass lifecycle without a window, and
/// keeps a record of them.
#[derive(Debug)]
pub struct MockWindowSubclassApi {
    /// The calls made, oldest first.
    pub calls: Vec<&'static str>,
    /// Whether installing the subclass fails.
    pub fail_install: bool,
    /// Whether removing the subclass fails.
    pub fail_remove: bool,
}

impl MockWindowSubclassApi {
    /// Returns a stand-in to which no call has been made.
    pub fn new(fail_install: bool, fail_remove: bool) -> (api: Self)
        ensures
            api.calls@ == Seq::<&'static str>::empty(),
            api.fail_install == fail_install,
            api.fail_remove == fail_remove,
    {
        MockWindowSubclassApi { calls: Vec::new(), fail_install, fail_remove }
    }

    /// Installs the subclass, or fails with `failure`.
    pub fn install(&mut self, _hwnd: isize, failure: windows_result::Error) -> (result: Result<
        (),
        windows_result::Error,
    >)
        ensures
            final(self).calls@ == old(self).calls@.push("install"),
            final(self).fail_install == old(self).fail_install,
            final(self).fail_remove == old(self).fail_remove,
            result == if old(self).fail_install {
                Err(failure)
            } else {
                Ok(())
            },
    {
        self.calls.push("install");
        if self.fail_install {
            Err(failure)
        } else {
            Ok(())
        }
    }

    /// Removes the subclass, or fails with `failure`.
    pub fn remove(&mut self, _hwnd: isize, failure: windows_result::Error) -> (result: Result<
        (),
        windows_result::Error,
    >)
        ensures
            final(self).calls@ == old(self).calls@.push("remove"),
            final(self).fail_install == old(self).fail_install,
            final(self).fail_remove == old(self).fail_remove,
            result == if old(self).fail_remove {
                Err(failure)
            } else {
                Ok(())
            },
    {
        self.calls.push("remove");
        if self.fail_remove {
            Err(failure)
        } else {
            Ok(())
        }
    }

    /// Passes a message on to the next procedure, which always answers the same.
    pub fn call_next(&mut self, _hwnd: isize, _message: WindowMessage) -> (result: isize)
        ensures
            final(self).calls@ == old(self).calls@.push("call_next"),
            final(self).fail_install == old(self).fail_install,
            final(self).fail_remove == old(self).fail_remove,
            result == 123,
    {
        self.calls.push("call_next");
        123
    }
}

} // verus!
