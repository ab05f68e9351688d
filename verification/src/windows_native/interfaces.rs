//! The list of the device interfaces of the HID class.

use vstd::prelude::*;
use crate::windows_native::error::{
    config_to_error,
    spec_config_to_error,
    WinError,
    CR_BUFFER_SMALL,
    CR_SUCCESS,
};
use crate::windows_native::string::U16StringList;

verus! {

/// How the reading of the interface list goes on after one attempt.
#[derive(Debug)]
pub enum ListRead {
    /// The list was read: the buffer holds it.
    Done(U16StringList),
    /// Interfaces arrived between the question for the size and the
    /// reading: both are done again.
    Again,
    /// The configuration manager failed.
    Failed(WinError),
}

/// The device interfaces of the HID class.
pub struct Interface;

impl Interface {
    /// What follows one attempt to read the interface list into `buffer`,
    /// which was made as long as the configuration manager had said. On
    /// `CR_SUCCESS` the buffer is the list; on `CR_BUFFER_SMALL` the list
    /// has grown meanwhile and is asked for again; any other code is the
    /// error of the reading.
    pub open spec fn spec_after_list_read(ret: u32, buffer: Seq<u16>) -> ListReadView {
        if ret == CR_SUCCESS {
            ListReadView::Done(buffer)
        } else if ret == CR_BUFFER_SMALL {
            ListReadView::Again
        } else {
            ListReadView::Failed(spec_config_to_error(ret))
        }
    }

    pub fn after_list_read(ret: u32, buffer: Vec<u16>) -> (read: ListRead)
        ensures
            read@ == Self::spec_after_list_read(ret, buffer@),
    {
        if ret == CR_SUCCESS {
            ListRead::Done(U16StringList(buffer))
        } else if ret == CR_BUFFER_SMALL {
            ListRead::Again
        } else {
            ListRead::Failed(config_to_error(ret))
        }
    }
}

/// A [`ListRead`] by what its buffer holds.
pub enum ListReadView {
    Done(Seq<u16>),
    Again,
    Failed(WinError),
}

impl View for ListRead {
    type V = ListReadView;

    open spec fn view(&self) -> ListReadView {
        match self {
            ListRead::Done(list) => ListReadView::Done(list@),
            ListRead::Again => ListReadView::Again,
            ListRead::Failed(error) => ListReadView::Failed(*error),
        }
    }
}

} // verus!
