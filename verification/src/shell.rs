//! What the Windows shell and macOS launchers share and decide: checks of the
//! dragged files, clipboard formats, and the layout of the data they hand over.

use vstd::prelude::*;

use crate::backend::ExternalDragError;
use crate::text::{
    decimal, decimal_text, hexadecimal, hexadecimal_text, joined, join_texts, texts,
};
use crate::window::{DragWindow, WindowHandle};

verus! {

/// The clipboard format of dropped files.
pub const CF_HDROP: u16 = 15;

/// The aspect of the full content.
pub const DVASPECT_CONTENT: u32 = 1;

/// The medium "global memory".
pub const TYMED_HGLOBAL: u32 = 1;

/// The drop effect "copy".
pub const DROPEFFECT_COPY: u32 = 1;

/// Size of the header of dropped files.
pub const DROPFILES_SIZE: usize = 20;

// ---------------------------------------------------------------------------
// Checks
// ---------------------------------------------------------------------------

/// What the file system says of a dragged file.
#[derive(Debug)]
pub struct CheckedFile {
    /// The path as shown.
    pub shown: String,
    /// Whether it is a regular file, and its length; or why it cannot be read.
    pub facts: Result<(bool, u64), String>,
}

/// The entry of a file in a diagnostic, or why the file cannot be dragged.
pub open spec fn file_check(file: CheckedFile) -> Result<Seq<char>, Seq<char>> {
    match file.facts {
        Err(message) => Err("drag file is not readable: "@ + file.shown@ + ": "@ + message@),
        Ok((is_file, len)) => if !is_file {
            Err("drag path is not a file: "@ + file.shown@)
        } else if len == 0 {
            Err("drag file is empty: "@ + file.shown@)
        } else {
            Ok(file.shown@ + " ("@ + decimal(len as nat) + " bytes)"@)
        },
    }
}

/// The entries of all files, or why the first bad one cannot be dragged.
pub open spec fn files_check(files: Seq<CheckedFile>, n: int) -> Result<Seq<Seq<char>>, Seq<char>>
    decreases n,
{
    if n <= 0 {
        Ok(seq![])
    } else {
        match files_check(files, n - 1) {
            Err(message) => Err(message),
            Ok(before) => match file_check(files[n - 1]) {
                Err(message) => Err(message),
                Ok(entry) => Ok(before.push(entry)),
            },
        }
    }
}

fn check_file(file: &CheckedFile) -> (entry: Result<String, String>)
    ensures
        match file_check(*file) {
            Ok(text) => entry is Ok && entry->Ok_0@ == text,
            Err(message) => entry is Err && entry->Err_0@ == message,
        },
{
    match &file.facts {
        Err(message) => Err(
            "drag file is not readable: ".to_owned().concat(file.shown.as_str()).concat(
                ": ",
            ).concat(message.as_str()),
        ),
        Ok((is_file, len)) => {
            if !*is_file {
                Err("drag path is not a file: ".to_owned().concat(file.shown.as_str()))
            } else if *len == 0 {
                Err("drag file is empty: ".to_owned().concat(file.shown.as_str()))
            } else {
                let bytes = decimal_text(*len);
                Ok(file.shown.clone().concat(" (").concat(bytes.as_str()).concat(" bytes)"))
            }
        },
    }
}

proof fn bad_file_spoils_the_rest(files: Seq<CheckedFile>, n: int, m: int)
    requires
        files_check(files, n) is Err,
        n <= m,
    ensures
        files_check(files, m) == files_check(files, n),
    decreases m - n,
{
    if n < m {
        bad_file_spoils_the_rest(files, n, m - 1);
    }
}

/// Check that all dragged files are readable, regular and not empty. Gives their
/// entries for a diagnostic.
///
/// # Errors
///
/// Fails with the first file that is not.
pub fn validate_paths(files: &Vec<CheckedFile>) -> (summary: Result<Vec<String>, String>)
    ensures
        match files_check(files@, files@.len() as int) {
            Ok(entries) => summary is Ok && texts(summary->Ok_0@) == entries,
            Err(message) => summary is Err && summary->Err_0@ == message,
        },
{
    let mut summary: Vec<String> = Vec::new();
    assert(texts(summary@) =~= seq![]);
    for i in 0..files.len()
        invariant
            files_check(files@, i as int) == Ok::<Seq<Seq<char>>, Seq<char>>(texts(summary@)),
    {
        match check_file(&files[i]) {
            Ok(entry) => {
                let ghost before = summary@;
                summary.push(entry);
                assert(texts(summary@) =~= texts(before).push(entry@));
            },
            Err(message) => {
                proof {
                    bad_file_spoils_the_rest(files@, i + 1, files@.len() as int);
                }
                return Err(message);
            },
        }
    }
    Ok(summary)
}

/// The diagnostic for a drag that is prepared by a launcher.
pub fn preparing_line(launcher: &str, summary: &Vec<String>) -> (line: String)
    ensures
        line@ == launcher@ + " drag preparing "@ + decimal(summary@.len()) + " file(s): "@ + joined(
            texts(summary@),
            ", "@,
        ),
{
    let count = decimal_text(summary.len() as u64);
    let files = join_texts(summary, ", ");
    launcher.to_owned().concat(" drag preparing ").concat(count.as_str()).concat(
        " file(s): ",
    ).concat(files.as_str())
}

/// The diagnostic for a Windows drag that is over.
pub fn completed_line(effect: u32) -> (line: String)
    ensures
        line@ == "Windows OLE drag completed with effect=0x"@ + hexadecimal(effect as nat),
{
    let effect = hexadecimal_text(effect);
    "Windows OLE drag completed with effect=0x".to_owned().concat(effect.as_str())
}

/// The error of a Windows drag that did not run. `hwnd` is the window as shown in
/// diagnostics.
pub fn drag_drop_failed(hwnd: &str, reason: &str) -> (error: ExternalDragError)
    ensures
        error matches ExternalDragError::StartFailed(text) && text@
            == "Windows OLE DoDragDrop failed for "@ + hwnd@ + ": "@ + reason@,
{
    ExternalDragError::StartFailed(
        "Windows OLE DoDragDrop failed for ".to_owned().concat(hwnd).concat(": ").concat(reason),
    )
}

/// The error of a Windows drag that has no COM apartment. There is a reason unless the
/// thread has an apartment of another model.
pub fn initialize_failed(reason: Option<&str>) -> (text: String)
    ensures
        text@ == (match reason {
            Some(reason) => "Windows OLE initialize failed: "@ + reason@,
            None =>
                "Windows OLE drag unavailable: plugin UI thread is already initialized as a multithreaded COM apartment"@,
        }),
{
    match reason {
        Some(reason) => "Windows OLE initialize failed: ".to_owned().concat(reason),
        None => {
            "Windows OLE drag unavailable: plugin UI thread is already initialized as a multithreaded COM apartment".to_owned()
        },
    }
}

/// Check the window of a Windows drag. `shown` is the window as shown in diagnostics.
///
/// # Errors
///
/// Fails when the window is not a Win32 window or has no handle.
pub fn check_win32_window(window: &DragWindow, shown: &str) -> (checked: Result<
    (),
    ExternalDragError,
>)
    ensures
        match window.handle() {
            WindowHandle::Win32(true) => checked is Ok,
            WindowHandle::Win32(false) => checked matches Err(
                ExternalDragError::MissingWindowHandle(message),
            ) && message@ == "window does not have a valid Win32 HWND"@,
            _ => checked matches Err(ExternalDragError::UnsupportedBackend { backend, window: text })
                && backend == window.backend() && text@ == shown@,
        },
{
    match window.window() {
        WindowHandle::Win32(true) => Ok(()),
        WindowHandle::Win32(false) => Err(
            ExternalDragError::MissingWindowHandle("window does not have a valid Win32 HWND"),
        ),
        _ => Err(
            ExternalDragError::UnsupportedBackend {
                backend: window.backend_kind(),
                window: shown.to_owned(),
            },
        ),
    }
}

/// Check the window of a macOS drag. `shown` is the window as shown in diagnostics.
///
/// # Errors
///
/// Fails when the window is not an AppKit window or has no view.
pub fn check_appkit_window(window: &DragWindow, shown: &str) -> (checked: Result<
    (),
    ExternalDragError,
>)
    ensures
        match window.handle() {
            WindowHandle::AppKit(true) => checked is Ok,
            WindowHandle::AppKit(false) => checked matches Err(
                ExternalDragError::MissingWindowHandle(message),
            ) && message@ == "window does not have a valid AppKit NSView"@,
            _ => checked matches Err(ExternalDragError::UnsupportedBackend { backend, window: text })
                && backend == window.backend() && text@ == shown@,
        },
{
    match window.window() {
        WindowHandle::AppKit(true) => Ok(()),
        WindowHandle::AppKit(false) => Err(
            ExternalDragError::MissingWindowHandle("window does not have a valid AppKit NSView"),
        ),
        _ => Err(
            ExternalDragError::UnsupportedBackend {
                backend: window.backend_kind(),
                window: shown.to_owned(),
            },
        ),
    }
}

// ---------------------------------------------------------------------------
// Clipboard formats
// ---------------------------------------------------------------------------

/// The registered clipboard formats of a drag.
#[derive(Clone, Copy, Debug, PartialEq, Eq, Structural)]
pub struct ShellDragFormats {
    pub preferred_drop_effect: u16,
    pub filenamew: u16,
}

/// A form in which the shell is served.
#[derive(Clone, Copy, Debug, PartialEq, Eq, Structural)]
pub enum ShellDragFormat {
    Hdrop,
    PreferredDropEffect(u16),
    FileNameW(u16),
}

/// A request for a form.
#[derive(Clone, Copy, Debug, PartialEq, Eq, Structural)]
pub struct FormatRequest {
    pub clipboard_format: u16,
    pub aspect: u32,
    pub index: i32,
    pub mediums: u32,
}

impl ShellDragFormat {
    /// The clipboard format of the form.
    pub open spec fn clipboard(self) -> u16 {
        match self {
            ShellDragFormat::Hdrop => CF_HDROP,
            ShellDragFormat::PreferredDropEffect(format) => format,
            ShellDragFormat::FileNameW(format) => format,
        }
    }

    /// The clipboard format of the form.
    #[must_use]
    pub fn clipboard_format(self) -> (format: u16)
        ensures
            format == self.clipboard(),
    {
        match self {
            ShellDragFormat::Hdrop => CF_HDROP,
            ShellDragFormat::PreferredDropEffect(format) | ShellDragFormat::FileNameW(format) => {
                format
            },
        }
    }
}

/// A registered clipboard format, where the system gave a valid one.
#[must_use]
pub fn registered_clipboard_format(value: u32) -> (format: Option<u16>)
    ensures
        format == (if 0 < value <= u16::MAX {
            Some(value as u16)
        } else {
            None
        }),
{
    if value > 0 && value <= u16::MAX as u32 {
        Some(value as u16)
    } else {
        None
    }
}

impl ShellDragFormats {
    /// Take the registered formats.
    ///
    /// # Errors
    ///
    /// Fails with the first format that could not be registered.
    pub fn new(preferred_drop_effect: Option<u16>, filenamew: Option<u16>) -> (formats: Result<
        Self,
        String,
    >)
        ensures
            match (preferred_drop_effect, filenamew) {
                (None, _) => formats matches Err(message) && message@
                    == "Windows could not register Preferred DropEffect clipboard format"@,
                (Some(_), None) => formats matches Err(message) && message@
                    == "Windows could not register FileNameW clipboard format"@,
                (Some(effect), Some(name)) => formats == Ok::<Self, String>(
                    ShellDragFormats { preferred_drop_effect: effect, filenamew: name },
                ),
            },
    {
        let effect: u16 = match preferred_drop_effect {
            Some(format) => format,
            None => {
                return Err(
                    "Windows could not register Preferred DropEffect clipboard format".to_owned(),
                );
            },
        };
        match filenamew {
            Some(name) => Ok(ShellDragFormats { preferred_drop_effect: effect, filenamew: name }),
            None => Err("Windows could not register FileNameW clipboard format".to_owned()),
        }
    }

    /// The forms that are offered, in this order.
    pub open spec fn offered(self) -> Seq<ShellDragFormat> {
        seq![
            ShellDragFormat::Hdrop,
            ShellDragFormat::PreferredDropEffect(self.preferred_drop_effect),
            ShellDragFormat::FileNameW(self.filenamew),
        ]
    }

    /// The forms that are offered, in this order.
    #[must_use]
    pub fn formats(self) -> (formats: Vec<ShellDragFormat>)
        ensures
            formats@ == self.offered(),
    {
        let formats: Vec<ShellDragFormat> = vec![
            ShellDragFormat::Hdrop,
            ShellDragFormat::PreferredDropEffect(self.preferred_drop_effect),
            ShellDragFormat::FileNameW(self.filenamew),
        ];
        assert(formats@ =~= self.offered());
        formats
    }

    /// The form that answers a request: the full content in global memory, in the
    /// first form with the clipboard format.
    pub open spec fn answer(self, request: FormatRequest) -> Option<ShellDragFormat> {
        if request.aspect != DVASPECT_CONTENT || request.index != -1 || request.mediums % 2 == 0 {
            None
        } else if request.clipboard_format == CF_HDROP {
            Some(ShellDragFormat::Hdrop)
        } else if request.clipboard_format == self.preferred_drop_effect {
            Some(ShellDragFormat::PreferredDropEffect(self.preferred_drop_effect))
        } else if request.clipboard_format == self.filenamew {
            Some(ShellDragFormat::FileNameW(self.filenamew))
        } else {
            None
        }
    }

    /// The form that answers a request.
    #[must_use]
    pub fn requested_format(self, request: &FormatRequest) -> (form: Option<ShellDragFormat>)
        ensures
            form == self.answer(*request),
    {
        if request.aspect != DVASPECT_CONTENT || request.index != -1 || request.mediums % 2 == 0 {
            return None;
        }
        let formats = self.formats();
        for i in 0..formats.len()
            invariant
                formats@ == self.offered(),
                forall|k: int| 0 <= k < i ==> (#[trigger] formats@[k]).clipboard()
                    != request.clipboard_format,
                request.aspect == DVASPECT_CONTENT,
                request.index == -1,
                request.mediums % 2 != 0,
        {
            if formats[i].clipboard_format() == request.clipboard_format {
                proof {
                    assert(i > 0 ==> formats@[0].clipboard() != request.clipboard_format);
                    assert(i > 1 ==> formats@[1].clipboard() != request.clipboard_format);
                }
                return Some(formats[i]);
            }
        }
        assert(formats@[0].clipboard() != request.clipboard_format);
        assert(formats@[1].clipboard() != request.clipboard_format);
        assert(formats@[2].clipboard() != request.clipboard_format);
        None
    }
}

/// How a drag goes on.
#[derive(Clone, Copy, Debug, PartialEq, Eq, Structural)]
pub enum DragContinuation {
    Cancel,
    Drop,
    Continue,
}

/// How a drag goes on: escape cancels it, and the release of the left button (bit 0 of
/// the key state) drops.
#[must_use]
pub fn query_continue_drag(escape_pressed: bool, key_state: u32) -> (next: DragContinuation)
    ensures
        next == (if escape_pressed {
            DragContinuation::Cancel
        } else if key_state % 2 == 0 {
            DragContinuation::Drop
        } else {
            DragContinuation::Continue
        }),
{
    if escape_pressed {
        DragContinuation::Cancel
    } else if key_state % 2 == 0 {
        DragContinuation::Drop
    } else {
        DragContinuation::Continue
    }
}

// ---------------------------------------------------------------------------
// Data layout
// ---------------------------------------------------------------------------

/// The bytes of a 16-bit unit, low byte first.
pub open spec fn unit_bytes(unit: u16) -> Seq<u8> {
    seq![(unit % 256) as u8, (unit / 256) as u8]
}

/// The bytes of some 16-bit units.
pub open spec fn units_bytes(units: Seq<u16>) -> Seq<u8>
    decreases units.len(),
{
    if units.len() == 0 {
        seq![]
    } else {
        units_bytes(units.drop_last()) + unit_bytes(units.last())
    }
}

/// Wide strings, each with a zero at its end.
pub open spec fn terminated(strings: Seq<Seq<u16>>) -> Seq<u16>
    decreases strings.len(),
{
    if strings.len() == 0 {
        seq![]
    } else {
        terminated(strings.drop_last()) + strings.last().push(0)
    }
}

/// The units of a list of wide strings: each with a zero at its end, and one more zero.
pub open spec fn file_list(paths: Seq<Seq<u16>>) -> Seq<u16> {
    terminated(paths).push(0)
}

/// The units of some wide strings.
pub open spec fn unit_lists(lists: Seq<Vec<u16>>) -> Seq<Seq<u16>> {
    Seq::new(lists.len(), |i: int| lists[i]@)
}

/// The header of dropped files: the offset of the list, the drop point 0,0, client
/// coordinates, wide characters.
pub open spec fn dropfiles_header() -> Seq<u8> {
    seq![20, 0, 0, 0, 0, 0, 0, 0, 0, 0, 0, 0, 0, 0, 0, 0, 1, 0, 0, 0]
}

fn push_unit(bytes: &mut Vec<u8>, unit: u16)
    ensures
        final(bytes)@ == old(bytes)@ + unit_bytes(unit),
{
    bytes.push((unit % 256) as u8);
    bytes.push((unit / 256) as u8);
    assert(bytes@ =~= old(bytes)@ + unit_bytes(unit));
}

proof fn units_bytes_grow(units: Seq<u16>, unit: u16)
    ensures
        units_bytes(units.push(unit)) == units_bytes(units) + unit_bytes(unit),
{
    assert(units.push(unit).drop_last() =~= units);
}

fn push_units(bytes: &mut Vec<u8>, units: &Vec<u16>)
    ensures
        final(bytes)@ == old(bytes)@ + units_bytes(units@),
{
    let ghost before = bytes@;
    assert(units@.take(0) =~= seq![]);
    assert(before + units_bytes(seq![]) =~= before);
    for i in 0..units.len()
        invariant
            bytes@ == before + units_bytes(units@.take(i as int)),
    {
        push_unit(bytes, units[i]);
        proof {
            units_bytes_grow(units@.take(i as int), units@[i as int]);
            assert(units@.take(i + 1) =~= units@.take(i as int).push(units@[i as int]));
            assert(before + units_bytes(units@.take(i as int)) + unit_bytes(units@[i as int])
                =~= before + (units_bytes(units@.take(i as int)) + unit_bytes(units@[i as int])));
        }
    }
    assert(units@.take(units@.len() as int) =~= units@);
}

proof fn units_bytes_join(a: Seq<u16>, b: Seq<u16>)
    ensures
        units_bytes(a + b) == units_bytes(a) + units_bytes(b),
    decreases b.len(),
{
    if b.len() == 0 {
        assert(a + b =~= a);
        assert(units_bytes(a) + units_bytes(b) =~= units_bytes(a));
    } else {
        units_bytes_join(a, b.drop_last());
        assert((a + b).drop_last() =~= a + b.drop_last());
        assert((a + b).last() == b.last());
        assert(units_bytes(a) + units_bytes(b.drop_last()) + unit_bytes(b.last()) =~= units_bytes(a)
            + (units_bytes(b.drop_last()) + unit_bytes(b.last())));
    }
}

/// The data of dropped files, from their paths as wide strings.
#[must_use]
pub fn build_hdrop(paths: &Vec<Vec<u16>>) -> (bytes: Vec<u8>)
    ensures
        bytes@ == dropfiles_header() + units_bytes(file_list(unit_lists(paths@))),
{
    let mut bytes: Vec<u8> = vec![20, 0, 0, 0, 0, 0, 0, 0, 0, 0, 0, 0, 0, 0, 0, 0, 1, 0, 0, 0];
    assert(bytes@ =~= dropfiles_header());
    let ghost header = dropfiles_header();
    let ghost lists = unit_lists(paths@);
    assert(lists.take(0) =~= seq![]);
    assert(header + units_bytes(seq![]) =~= header);
    for i in 0..paths.len()
        invariant
            lists == unit_lists(paths@),
            bytes@ == header + units_bytes(terminated(lists.take(i as int))),
    {
        let ghost written = terminated(lists.take(i as int));
        let ghost path = paths@[i as int]@;
        push_units(&mut bytes, &paths[i]);
        push_unit(&mut bytes, 0);
        proof {
            assert(lists.take(i + 1).drop_last() =~= lists.take(i as int));
            assert(lists.take(i + 1).last() == path);
            units_bytes_grow(path, 0);
            units_bytes_join(written, path.push(0));
            assert(header + units_bytes(written) + units_bytes(path) + unit_bytes(0) =~= header + (
            units_bytes(written) + (units_bytes(path) + unit_bytes(0))));
        }
    }
    assert(lists.take(lists.len() as int) =~= lists);
    push_unit(&mut bytes, 0);
    proof {
        units_bytes_grow(terminated(lists), 0);
        assert(header + units_bytes(terminated(lists)) + unit_bytes(0) =~= header + (units_bytes(
            terminated(lists),
        ) + unit_bytes(0)));
    }
    bytes
}

/// The data of one wide string, with a zero at its end.
#[must_use]
pub fn build_wide_string(wide: &Vec<u16>) -> (bytes: Vec<u8>)
    ensures
        bytes@ == units_bytes(wide@.push(0)),
{
    let mut bytes: Vec<u8> = Vec::new();
    push_units(&mut bytes, wide);
    push_unit(&mut bytes, 0);
    proof {
        units_bytes_grow(wide@, 0);
        assert(seq![] + units_bytes(wide@) =~= units_bytes(wide@));
    }
    bytes
}

/// The data of the preferred drop effect: copy.
#[must_use]
pub fn build_drop_effect() -> (bytes: Vec<u8>)
    ensures
        bytes@ == seq![DROPEFFECT_COPY as u8, 0u8, 0u8, 0u8],
{
    let bytes: Vec<u8> = vec![1, 0, 0, 0];
    assert(bytes@ =~= seq![DROPEFFECT_COPY as u8, 0u8, 0u8, 0u8]);
    bytes
}

// ---------------------------------------------------------------------------
// What a reader finds
// ---------------------------------------------------------------------------

/// The units that some bytes hold.
pub open spec fn units_of(bytes: Seq<u8>) -> Seq<u16> {
    Seq::new(
        bytes.len() / 2,
        |i: int| (bytes[2 * i] as int + bytes[2 * i + 1] as int * 256) as u16,
    )
}

/// The strings of a list: everything up to each zero, until an empty string ends it.
pub open spec fn strings_of(units: Seq<u16>, current: Seq<u16>) -> Seq<Seq<u16>>
    decreases units.len(),
{
    if units.len() == 0 {
        seq![]
    } else if units[0] != 0 {
        strings_of(units.drop_first(), current.push(units[0]))
    } else if current.len() == 0 {
        seq![]
    } else {
        seq![current] + strings_of(units.drop_first(), seq![])
    }
}

/// A path that the list can hold: not empty, and without a zero.
pub open spec fn listable(path: Seq<u16>) -> bool {
    path.len() > 0 && forall|i: int| 0 <= i < path.len() ==> #[trigger] path[i] != 0
}

proof fn units_are_read_back(units: Seq<u16>)
    ensures
        units_of(units_bytes(units)) == units,
        units_bytes(units).len() == 2 * units.len(),
    decreases units.len(),
{
    if units.len() > 0 {
        let rest = units.drop_last();
        units_are_read_back(rest);
        let bytes = units_bytes(rest);
        let last = units.last();
        assert(units_bytes(units) == bytes + unit_bytes(last));
        assert forall|i: int| 0 <= i < units.len() implies #[trigger] units_of(
            units_bytes(units),
        )[i] == units[i] by {
            if i < rest.len() {
                assert(units_of(bytes)[i] == rest[i]);
                assert((bytes + unit_bytes(last))[2 * i] == bytes[2 * i]);
                assert((bytes + unit_bytes(last))[2 * i + 1] == bytes[2 * i + 1]);
            } else {
                assert((bytes + unit_bytes(last))[2 * i] == unit_bytes(last)[0]);
                assert((bytes + unit_bytes(last))[2 * i + 1] == unit_bytes(last)[1]);
            }
        }
        assert(units_of(units_bytes(units)) =~= units);
    } else {
        assert(units_of(units_bytes(units)) =~= units);
    }
}

proof fn one_string_is_read(path: Seq<u16>, current: Seq<u16>, rest: Seq<u16>)
    requires
        forall|i: int| 0 <= i < path.len() ==> #[trigger] path[i] != 0,
        current.len() + path.len() > 0,
    ensures
        strings_of(path.push(0) + rest, current) == seq![current + path] + strings_of(
            rest,
            seq![],
        ),
    decreases path.len(),
{
    let units = path.push(0) + rest;
    if path.len() == 0 {
        assert(units[0] == 0);
        assert(units.drop_first() =~= rest);
        assert(current + path =~= current);
    } else {
        let tail = path.drop_first();
        assert(units[0] == path[0]);
        assert(units.drop_first() =~= tail.push(0) + rest);
        assert forall|i: int| 0 <= i < tail.len() implies #[trigger] tail[i] != 0 by {
            assert(tail[i] == path[i + 1]);
        }
        one_string_is_read(tail, current.push(path[0]), rest);
        assert(current.push(path[0]) + tail =~= current + path);
    }
}

proof fn terminated_from_the_front(strings: Seq<Seq<u16>>)
    requires
        strings.len() > 0,
    ensures
        terminated(strings) == strings[0].push(0) + terminated(strings.drop_first()),
    decreases strings.len(),
{
    if strings.len() == 1 {
        reveal_with_fuel(terminated, 2);
        assert(strings.drop_last() =~= seq![]);
        assert(strings.drop_first() =~= seq![]);
        assert(terminated(strings) =~= strings[0].push(0));
        assert(strings[0].push(0) + terminated(strings.drop_first()) =~= strings[0].push(0));
    } else {
        let init = strings.drop_last();
        terminated_from_the_front(init);
        assert(init.drop_first() =~= strings.drop_first().drop_last());
        assert(strings.drop_first().last() == strings.last());
        assert(strings[0].push(0) + terminated(init.drop_first()) + strings.last().push(0)
            =~= strings[0].push(0) + (terminated(init.drop_first()) + strings.last().push(0)));
    }
}

proof fn strings_are_read(paths: Seq<Seq<u16>>)
    requires
        forall|i: int| 0 <= i < paths.len() ==> listable(#[trigger] paths[i]),
    ensures
        strings_of(file_list(paths), seq![]) == paths,
    decreases paths.len(),
{
    if paths.len() == 0 {
        assert(file_list(paths) =~= seq![0u16]);
        assert(strings_of(file_list(paths), seq![]) =~= paths);
    } else {
        let rest = paths.drop_first();
        assert forall|i: int| 0 <= i < rest.len() implies listable(#[trigger] rest[i]) by {
            assert(rest[i] == paths[i + 1]);
        }
        strings_are_read(rest);
        terminated_from_the_front(paths);
        assert(listable(paths[0]));
        assert(file_list(paths) =~= paths[0].push(0) + file_list(rest));
        one_string_is_read(paths[0], seq![], file_list(rest));
        assert(seq![] + paths[0] =~= paths[0]);
        assert(seq![paths[0]] + rest =~= paths);
    }
}

/// A drop target finds exactly the dragged paths in the data of dropped files: the
/// list starts where the header says, and its strings are the paths, in order.
pub proof fn dropped_files_are_the_dragged_ones(paths: Seq<Seq<u16>>)
    requires
        forall|i: int| 0 <= i < paths.len() ==> listable(#[trigger] paths[i]),
    ensures
        ({
            let data = dropfiles_header() + units_bytes(file_list(paths));
            let start = data[0] as int;
            &&& start == DROPFILES_SIZE
            &&& strings_of(units_of(data.skip(start)), seq![]) == paths
        }),
{
    let data = dropfiles_header() + units_bytes(file_list(paths));
    assert(data[0] == 20);
    assert(dropfiles_header().len() == 20);
    assert(data.skip(20) =~= units_bytes(file_list(paths)));
    units_are_read_back(file_list(paths));
    strings_are_read(paths);
}

// ---------------------------------------------------------------------------
// What a drop target is answered
// ---------------------------------------------------------------------------

/// Whether a request asks for the full content, as a whole, in global memory.
pub open spec fn asks_for_whole_content(request: FormatRequest) -> bool {
    request.aspect == 1 && request.index == -1 && request.mediums % 2 == 1
}

/// Every form that is offered can be had: a request for its clipboard format is answered
/// with an offered form of that clipboard format. A format that is not offered is refused,
/// and so is every request for something else than the whole content in global memory.
pub proof fn offered_forms_can_be_had(formats: ShellDragFormats, request: FormatRequest)
    ensures
        asks_for_whole_content(request) ==> (formats.answer(request) is Some <==> exists|i: int|
            0 <= i < formats.offered().len() && (#[trigger] formats.offered()[i]).clipboard()
                == request.clipboard_format),
        formats.answer(request) matches Some(form) ==> form.clipboard() == request.clipboard_format
            && formats.offered().contains(form),
        !asks_for_whole_content(request) ==> formats.answer(request) is None,
{
    let offered = formats.offered();
    assert(offered[0] == ShellDragFormat::Hdrop);
    assert(offered[1] == ShellDragFormat::PreferredDropEffect(formats.preferred_drop_effect));
    assert(offered[2] == ShellDragFormat::FileNameW(formats.filenamew));
}

/// The file list, the preferred drop effect and the file name are each served under their
/// own clipboard format, whenever the three formats are different.
pub proof fn forms_are_served_under_their_formats(formats: ShellDragFormats, mediums: u32)
    requires
        mediums % 2 == 1,
        formats.preferred_drop_effect != 15,
        formats.filenamew != 15,
        formats.filenamew != formats.preferred_drop_effect,
    ensures
        formats.answer(FormatRequest { clipboard_format: 15, aspect: 1, index: -1i32, mediums })
            == Some(ShellDragFormat::Hdrop),
        formats.answer(
            FormatRequest {
                clipboard_format: formats.preferred_drop_effect,
                aspect: 1,
                index: -1i32,
                mediums,
            },
        ) == Some(ShellDragFormat::PreferredDropEffect(formats.preferred_drop_effect)),
        formats.answer(
            FormatRequest { clipboard_format: formats.filenamew, aspect: 1, index: -1i32, mediums },
        ) == Some(ShellDragFormat::FileNameW(formats.filenamew)),
        formats.offered().len() == 3,
        formats.offered().contains(ShellDragFormat::Hdrop),
        formats.offered().contains(
            ShellDragFormat::PreferredDropEffect(formats.preferred_drop_effect),
        ),
        formats.offered().contains(ShellDragFormat::FileNameW(formats.filenamew)),
{
    let offered = formats.offered();
    assert(offered[0] == ShellDragFormat::Hdrop);
    assert(offered[1] == ShellDragFormat::PreferredDropEffect(formats.preferred_drop_effect));
    assert(offered[2] == ShellDragFormat::FileNameW(formats.filenamew));
}

/// A drop target that reads the header of dropped files finds a list of wide characters
/// after it, and no drop point of its own.
pub proof fn header_announces_wide_paths(paths: Seq<Seq<u16>>)
    ensures
        ({
            let data = dropfiles_header() + units_bytes(file_list(paths));
            &&& data[0] + data[1] * 256 + data[2] * 65536 + data[3] * 16777216 == 20
            &&& forall|i: int| 4 <= i < 16 ==> #[trigger] data[i] == 0
            &&& data[16] + data[17] * 256 + data[18] * 65536 + data[19] * 16777216 == 1
        }),
{
    let data = dropfiles_header() + units_bytes(file_list(paths));
    assert forall|i: int| 0 <= i < 20 implies #[trigger] data[i] == dropfiles_header()[i] by {}
    assert(data[0] == 20 && data[1] == 0 && data[2] == 0 && data[3] == 0);
    assert(data[16] == 1 && data[17] == 0 && data[18] == 0 && data[19] == 0);
}

/// A drop target finds the path in the data of one wide string.
pub proof fn wide_string_is_read_back(path: Seq<u16>)
    requires
        listable(path),
    ensures
        strings_of(units_of(units_bytes(path.push(0))), seq![]) == seq![path],
{
    units_are_read_back(path.push(0));
    one_string_is_read(path, seq![], seq![]);
    assert(path.push(0) + seq![] =~= path.push(0));
    assert(seq![] + path =~= path);
    assert(strings_of(seq![], seq![]) =~= seq![]);
    assert(seq![path] + seq![] =~= seq![path]);
}

/// Whether a file can be dragged: it can be read, is regular and not empty.
pub open spec fn draggable(file: CheckedFile) -> bool {
    file.facts matches Ok((is_file, len)) && is_file && len > 0
}

proof fn checked_prefix(files: Seq<CheckedFile>, n: int)
    requires
        0 <= n <= files.len(),
    ensures
        files_check(files, n) is Ok <==> forall|i: int| 0 <= i < n ==> draggable(
            #[trigger] files[i],
        ),
        files_check(files, n) matches Ok(entries) ==> entries.len() == n,
    decreases n,
{
    if n > 0 {
        checked_prefix(files, n - 1);
        assert(file_check(files[n - 1]) is Ok <==> draggable(files[n - 1]));
    }
}

/// A drag is prepared exactly when every file can be read, is regular and not empty; it
/// then has one entry for each file. Otherwise the first file that is not is to blame,
/// whatever comes after it.
pub proof fn one_bad_file_stops_the_drag(files: Seq<CheckedFile>, i: int)
    requires
        0 <= i < files.len(),
    ensures
        files_check(files, files.len() as int) is Ok <==> forall|j: int|
            0 <= j < files.len() ==> draggable(#[trigger] files[j]),
        files_check(files, files.len() as int) matches Ok(entries) ==> entries.len()
            == files.len(),
        !draggable(files[i]) && (forall|j: int| 0 <= j < i ==> draggable(#[trigger] files[j]))
            ==> files_check(files, files.len() as int) == files_check(seq![files[i]], 1)
            && files_check(files, files.len() as int) is Err,
{
    checked_prefix(files, files.len() as int);
    checked_prefix(files, i);
    if !draggable(files[i]) && (forall|j: int| 0 <= j < i ==> draggable(#[trigger] files[j])) {
        reveal_with_fuel(files_check, 2);
        assert(seq![files[i]][0] == files[i]);
        bad_file_spoils_the_rest(files, i + 1, files.len() as int);
    }
}

/// The message for a file that cannot be dragged says what is wrong with it.
pub proof fn bad_files_are_told_apart(shown: String, message: String, len: u64)
    ensures
        file_check(CheckedFile { shown, facts: Err(message) }) == Err::<Seq<char>, Seq<char>>(
            "drag file is not readable: "@ + shown@ + ": "@ + message@,
        ),
        file_check(CheckedFile { shown, facts: Ok((false, len)) }) == Err::<Seq<char>, Seq<char>>(
            "drag path is not a file: "@ + shown@,
        ),
        file_check(CheckedFile { shown, facts: Ok((true, 0)) }) == Err::<Seq<char>, Seq<char>>(
            "drag file is empty: "@ + shown@,
        ),
{
}

} // verus!
