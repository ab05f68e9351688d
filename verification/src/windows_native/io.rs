//! What the Windows back end decides around its overlapped transfers: how a
//! report is laid into the buffer of a transfer, what follows from the
//! result of a call, and what a read hands to its caller.

use vstd::prelude::*;
use crate::error::HidError;
use crate::text::{decode_utf16_lossy, spec_decode_utf16_lossy, spec_is_scalar};
use crate::windows_native::error::{
    hid_error_from,
    spec_is_hid_error_of,
    Win32Error,
    WinError,
    ERROR_ACCESS_DENIED,
};

verus! {

/// Number of reports that the kernel keeps for a device that is open.
pub const INPUT_BUFFER_COUNT: u32 = 64;

/// How long a write waits for a transfer that goes on, in milliseconds.
pub const WRITE_TIMEOUT_MS: u32 = 1000;

/// Number of code units of the buffer for an indexed string.
pub const STRING_BUF_LEN: usize = 128;

/// The control code that asks a device for a feature report.
pub const IOCTL_HID_GET_FEATURE: u32 = 0x000B_0192;

/// A control code: the device type in the high 16 bits, then two bits of
/// access, twelve bits of the function, and two bits of the method.
pub open spec fn spec_ctl_code(device_type: u32, function: u32, method: u32, access: u32) -> int {
    device_type * 0x1_0000 + access * 0x4000 + function * 4 + method
}

/// Packs a control code: see [`spec_ctl_code`].
pub fn ctl_code(device_type: u32, function: u32, method: u32, access: u32) -> (code: u32)
    requires
        device_type <= 0xffff,
        function <= 0xfff,
        method <= 3,
        access <= 3,
    ensures
        code == spec_ctl_code(device_type, function, method, access),
{
    device_type * 0x1_0000 + access * 0x4000 + function * 4 + method
}

/// The buffer of one kind of transfer of a device, as long as the reports
/// of that kind.
pub struct AsyncState {
    pub buffer: Vec<u8>,
}

/// A report in a buffer of `len` bytes: the bytes of the report, as many as
/// the buffer holds, and zeros behind them.
pub open spec fn spec_filled(data: Seq<u8>, len: nat) -> Seq<u8> {
    Seq::new(
        len,
        |at: int|
            if at < data.len() {
                data[at]
            } else {
                0u8
            },
    )
}

impl AsyncState {
    /// A buffer of `report_size` zeros.
    pub fn new(report_size: usize) -> (state: AsyncState)
        ensures
            state.buffer@ == spec_filled(Seq::empty(), report_size as nat),
    {
        let mut buffer: Vec<u8> = Vec::new();
        let mut at: usize = 0;
        while at < report_size
            invariant
                at <= report_size,
                buffer@ =~= spec_filled(Seq::empty(), at as nat),
            decreases report_size - at,
        {
            buffer.push(0);
            at = at + 1;
        }
        AsyncState { buffer }
    }

    /// Puts zeros into the whole buffer.
    pub fn clear_buffer(&mut self)
        ensures
            final(self).buffer@ == spec_filled(Seq::empty(), old(self).buffer@.len()),
    {
        let mut at: usize = 0;
        while at < self.buffer.len()
            invariant
                self.buffer@.len() == old(self).buffer@.len(),
                forall|i: int| 0 <= i < at ==> self.buffer@[i] == 0,
            decreases self.buffer@.len() - at,
        {
            self.buffer[at] = 0;
            at = at + 1;
        }
        assert(self.buffer@ =~= spec_filled(Seq::empty(), old(self).buffer@.len()));
    }

    /// Lays a report into the buffer: Windows wants as many bytes as the
    /// longest report has, so a shorter report is followed by zeros.
    pub fn fill_buffer(&mut self, data: &[u8])
        ensures
            final(self).buffer@ == spec_filled(data@, old(self).buffer@.len()),
    {
        let mut at: usize = 0;
        while at < self.buffer.len()
            invariant
                self.buffer@.len() == old(self).buffer@.len(),
                forall|i: int|
                    0 <= i < at ==> self.buffer@[i] == spec_filled(
                        data@,
                        old(self).buffer@.len(),
                    )[i],
            decreases self.buffer@.len() - at,
        {
            if at < data.len() {
                self.buffer[at] = data[at];
            } else {
                self.buffer[at] = 0;
            }
            at = at + 1;
        }
        assert(self.buffer@ =~= spec_filled(data@, old(self).buffer@.len()));
    }

    pub fn buffer_len(&self) -> (len: usize)
        ensures
            len == self.buffer@.len(),
    {
        self.buffer.len()
    }

    /// Whether a write hands the buffer to the system and not the data of
    /// the caller: so where the data is shorter than the buffer.
    pub fn write_uses_buffer(&self, data: &[u8]) -> (uses: bool)
        ensures
            uses == (data@.len() < self.buffer@.len()),
    {
        data.len() < self.buffer.len()
    }
}

/// Whether a device that could not be opened for reading and writing is
/// opened once more without access: so where access was denied, as it is to
/// the devices that the system keeps to itself.
pub fn retry_without_access(error: Win32Error) -> (retry: bool)
    ensures
        retry == (error == Win32Error::Generic(ERROR_ACCESS_DENIED)),
{
    match error {
        Win32Error::Generic(code) => code == ERROR_ACCESS_DENIED,
        _ => false,
    }
}

/// What a write does after it has handed its report to the system.
pub enum WriteStep {
    /// The report was taken at once: the write gives 0 bytes.
    Done,
    /// The transfer goes on: the write waits for it, for the given number
    /// of milliseconds, and gives the bytes that the wait reports.
    Wait(u32),
    /// The write fails.
    Failed(HidError),
}

/// Decides what a write does after the call that hands the report over: see
/// [`WriteStep`].
pub fn after_write_file(succeeded: bool, last_error: Win32Error) -> (step: WriteStep)
    ensures
        succeeded ==> step is Done,
        !succeeded && last_error == Win32Error::IoPending ==> step == WriteStep::Wait(
            WRITE_TIMEOUT_MS,
        ),
        !succeeded && last_error != Win32Error::IoPending ==> step is Failed
            && spec_is_hid_error_of(step->Failed_0, WinError::spec_from_win32(last_error)),
{
    if succeeded {
        WriteStep::Done
    } else {
        match last_error {
            Win32Error::IoPending => WriteStep::Wait(WRITE_TIMEOUT_MS),
            other => WriteStep::Failed(hid_error_from(WinError::from(other))),
        }
    }
}

/// Whether a read starts a transfer: so where none is going on from a read
/// before. A read that starts one resets its event and clears its buffer
/// first.
pub fn read_starts_transfer(read_pending: bool) -> (starts: bool)
    ensures
        starts == !read_pending,
{
    !read_pending
}

/// What a read does after it has started a transfer.
pub enum ReadIssued {
    /// The transfer is under way or done: the read waits for its result.
    Wait,
    /// The transfer could not be started: the read cancels it and fails,
    /// and no transfer is going on.
    Failed(HidError),
}

/// Decides what a read does after the call that starts the transfer: see
/// [`ReadIssued`].
pub fn after_read_file(succeeded: bool, last_error: Win32Error) -> (issued: ReadIssued)
    ensures
        succeeded || last_error == Win32Error::IoPending ==> issued is Wait,
        !succeeded && last_error != Win32Error::IoPending ==> issued is Failed
            && spec_is_hid_error_of(issued->Failed_0, WinError::spec_from_win32(last_error)),
{
    if succeeded {
        ReadIssued::Wait
    } else {
        match last_error {
            Win32Error::IoPending => ReadIssued::Wait,
            other => ReadIssued::Failed(hid_error_from(WinError::from(other))),
        }
    }
}

/// How long a read waits for its transfer: for ever for a timeout below
/// zero, which is none, else the milliseconds of the timeout.
pub fn wait_timeout(timeout: i32) -> (milliseconds: Option<u32>)
    ensures
        timeout < 0 ==> milliseconds is None,
        timeout >= 0 ==> milliseconds == Some(timeout as u32),
{
    if timeout < 0 {
        None
    } else {
        Some(timeout as u32)
    }
}

/// What a read does after it has waited for its transfer.
pub enum ReadWaited {
    /// The transfer is done with the given number of bytes; no transfer is
    /// going on any more.
    Data(usize),
    /// No report came in time: the read gives 0 bytes, and the transfer
    /// goes on for the next read.
    TimedOut,
    /// The read fails; no transfer is going on any more.
    Failed(HidError),
}

impl ReadWaited {
    /// Whether the transfer of the read goes on behind the read.
    pub open spec fn spec_read_pending(&self) -> bool {
        self is TimedOut
    }

    /// Whether the transfer of the read goes on behind the read.
    pub fn read_pending(&self) -> (pending: bool)
        ensures
            pending == self.spec_read_pending(),
    {
        match self {
            ReadWaited::TimedOut => true,
            _ => false,
        }
    }
}

/// Decides what a read does after the wait for its transfer: see
/// [`ReadWaited`].
pub fn after_wait(result: Result<usize, WinError>) -> (waited: ReadWaited)
    ensures
        match result {
            Ok(count) => waited == ReadWaited::Data(count),
            Err(WinError::WaitTimedOut) => waited is TimedOut,
            Err(error) => waited is Failed && spec_is_hid_error_of(waited->Failed_0, error),
        },
{
    match result {
        Ok(count) => ReadWaited::Data(count),
        Err(WinError::WaitTimedOut) => ReadWaited::TimedOut,
        Err(error) => ReadWaited::Failed(hid_error_from(error)),
    }
}

/// The bytes of a report that a read hands to its caller: the bytes that
/// were read into the buffer of the transfer, without the first of them
/// where that is zero. Windows puts a zero before the reports of a device
/// that does not number its reports.
pub open spec fn spec_report_payload(buffer: Seq<u8>, bytes_read: int) -> Seq<u8> {
    let count = if bytes_read < buffer.len() {
        bytes_read
    } else {
        buffer.len() as int
    };
    if count > 0 && buffer[0] == 0 {
        buffer.subrange(1, count)
    } else if count > 0 {
        buffer.subrange(0, count)
    } else {
        Seq::empty()
    }
}

/// Hands the report of a transfer to the caller of a read: as many bytes of
/// [`spec_report_payload`] as the buffer of the caller holds are copied to
/// its start, and their number is returned.
pub fn deliver_report(buffer: &[u8], bytes_read: u32, buf: &mut [u8]) -> (copied: usize)
    ensures
        final(buf)@.len() == old(buf)@.len(),
        copied == (if spec_report_payload(buffer@, bytes_read as int).len() <= old(buf)@.len() {
            spec_report_payload(buffer@, bytes_read as int).len()
        } else {
            old(buf)@.len()
        }),
        final(buf)@.take(copied as int) == spec_report_payload(buffer@, bytes_read as int).take(
            copied as int,
        ),
        final(buf)@.skip(copied as int) == old(buf)@.skip(copied as int),
{
    let count: usize = if (bytes_read as usize) < buffer.len() {
        bytes_read as usize
    } else {
        buffer.len()
    };
    let start: usize = if count > 0 && buffer[0] == 0 {
        1
    } else {
        0
    };
    let ghost payload = spec_report_payload(buffer@, bytes_read as int);
    assert(payload =~= buffer@.subrange(start as int, count as int));
    let size: usize = if count - start <= buf.len() {
        count - start
    } else {
        buf.len()
    };
    let mut at: usize = 0;
    while at < size
        invariant
            at <= size,
            start + size <= count <= buffer@.len(),
            size <= buf@.len(),
            buf@.len() == old(buf)@.len(),
            forall|i: int| 0 <= i < at ==> buf@[i] == buffer@[start + i],
            forall|i: int| at <= i < buf@.len() ==> buf@[i] == old(buf)@[i],
        decreases size - at,
    {
        buf[at] = buffer[start + at];
        at = at + 1;
    }
    assert(buf@.take(size as int) =~= payload.take(size as int));
    assert(buf@.skip(size as int) =~= old(buf)@.skip(size as int));
    size
}

/// The number of bytes of a feature report that was read: the bytes that
/// the system reports, and one more where the first byte of the report is
/// zero, for the byte of the report id that the count holds on every
/// platform.
pub fn feature_report_length(bytes_returned: u32, first_byte: u8) -> (length: usize)
    requires
        bytes_returned < u32::MAX,
    ensures
        length == bytes_returned + (if first_byte == 0 {
            1int
        } else {
            0int
        }),
{
    if first_byte == 0 {
        (bytes_returned + 1) as usize
    } else {
        bytes_returned as usize
    }
}

/// The length of the text in a buffer: the code units before the first
/// zero, and all of them where there is none.
pub open spec fn spec_until_zero(units: Seq<u16>, at: int) -> int
    decreases units.len() - at,
{
    if at < 0 || at >= units.len() {
        units.len() as int
    } else if units[at] == 0 {
        at
    } else {
        spec_until_zero(units, at + 1)
    }
}

/// The codes of the characters of an indexed string: those of the text
/// before the first zero of the buffer, with the replacement character for
/// each surrogate that stands alone.
pub open spec fn spec_indexed_string(units: Seq<u16>) -> Seq<u32> {
    spec_decode_utf16_lossy(units.subrange(0, spec_until_zero(units, 0)))
}

/// Makes the text of an indexed string: see [`spec_indexed_string`].
pub fn indexed_string(units: &[u16]) -> (text: String)
    ensures
        text@.len() == spec_indexed_string(units@).len(),
        forall|at: int|
            0 <= at < text@.len() ==> (#[trigger] text@[at]) == (if spec_is_scalar(
                spec_indexed_string(units@)[at],
            ) {
                spec_indexed_string(units@)[at] as char
            } else {
                '\u{FFFD}'
            }),
{
    let mut end: usize = 0;
    while end < units.len() && units[end] != 0
        invariant
            end <= units@.len(),
            spec_until_zero(units@, 0) == spec_until_zero(units@, end as int),
        decreases units@.len() - end,
    {
        end = end + 1;
    }
    let codes = decode_utf16_lossy(vstd::slice::slice_subrange(units, 0, end));
    let mut text = String::new();
    let mut at: usize = 0;
    while at < codes.len()
        invariant
            at <= codes@.len(),
            codes@ == spec_indexed_string(units@),
            text@.len() == at,
            forall|i: int|
                0 <= i < at ==> (#[trigger] text@[i]) == (if spec_is_scalar(codes@[i]) {
                    codes@[i] as char
                } else {
                    '\u{FFFD}'
                }),
        decreases codes@.len() - at,
    {
        match char::from_u32(codes[at]) {
            Some(c) => {
                text.push(c);
            },
            None => {
                text.push('\u{FFFD}');
            },
        }
        at = at + 1;
    }
    text
}

} // verus!
