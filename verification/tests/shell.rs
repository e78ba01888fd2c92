use audio_plugin_dnd::backend::ExternalDragError;
use audio_plugin_dnd::shell::{
    build_drop_effect, build_hdrop, build_wide_string, check_appkit_window, check_win32_window,
    completed_line, drag_drop_failed, initialize_failed, preparing_line, query_continue_drag, registered_clipboard_format, validate_paths, CheckedFile,
    DragContinuation, FormatRequest, ShellDragFormat, ShellDragFormats, CF_HDROP,
};
use audio_plugin_dnd::window::{DragWindow, WindowHandle};

fn file(shown: &str, facts: Result<(bool, u64), &str>) -> CheckedFile {
    CheckedFile {
        shown: shown.to_string(),
        facts: facts.map_err(str::to_string),
    }
}

fn request(clipboard_format: u16) -> FormatRequest {
    FormatRequest {
        clipboard_format,
        aspect: 1,
        index: -1,
        mediums: 1,
    }
}

#[test]
fn dragged_files_are_checked() {
    assert_eq!(
        validate_paths(&vec![file("a", Ok((true, 12))), file("b", Ok((true, 1)))]),
        Ok(vec!["a (12 bytes)".to_string(), "b (1 bytes)".to_string()])
    );
    assert_eq!(
        validate_paths(&vec![file("a", Ok((true, 12))), file("b", Err("gone"))]),
        Err("drag file is not readable: b: gone".to_string())
    );
    assert_eq!(
        validate_paths(&vec![file("d", Ok((false, 12)))]),
        Err("drag path is not a file: d".to_string())
    );
    assert_eq!(
        validate_paths(&vec![file("e", Ok((true, 0))), file("b", Err("gone"))]),
        Err("drag file is empty: e".to_string())
    );
    assert_eq!(
        preparing_line(
            "Windows OLE",
            &vec!["a (12 bytes)".to_string(), "b (1 bytes)".to_string()]
        ),
        "Windows OLE drag preparing 2 file(s): a (12 bytes), b (1 bytes)"
    );
}

#[test]
fn launchers_need_their_windows() {
    let win = DragWindow::new(WindowHandle::Win32(true));
    assert_eq!(check_win32_window(&win, ""), Ok(()));
    assert_eq!(
        check_win32_window(&DragWindow::new(WindowHandle::Win32(false)), ""),
        Err(ExternalDragError::MissingWindowHandle(
            "window does not have a valid Win32 HWND"
        ))
    );
    assert_eq!(
        check_appkit_window(&DragWindow::new(WindowHandle::AppKit(false)), ""),
        Err(ExternalDragError::MissingWindowHandle(
            "window does not have a valid AppKit NSView"
        ))
    );
    assert_eq!(check_appkit_window(&DragWindow::new(WindowHandle::AppKit(true)), ""), Ok(()));
    assert_eq!(
        check_appkit_window(&win, "Win32(..)"),
        Err(ExternalDragError::UnsupportedBackend {
            backend: win.backend_kind(),
            window: "Win32(..)".to_string()
        })
    );
}

#[test]
fn formats_are_registered_and_requested() {
    assert_eq!(registered_clipboard_format(0), None);
    assert_eq!(registered_clipboard_format(0xc001), Some(0xc001));
    assert_eq!(registered_clipboard_format(0x1_0000), None);
    assert_eq!(
        ShellDragFormats::new(None, Some(2)),
        Err("Windows could not register Preferred DropEffect clipboard format".to_string())
    );
    assert_eq!(
        ShellDragFormats::new(Some(1), None),
        Err("Windows could not register FileNameW clipboard format".to_string())
    );
    let formats = ShellDragFormats::new(Some(0xc001), Some(0xc002)).expect("registered");
    assert_eq!(
        formats.formats(),
        vec![
            ShellDragFormat::Hdrop,
            ShellDragFormat::PreferredDropEffect(0xc001),
            ShellDragFormat::FileNameW(0xc002),
        ]
    );
    assert_eq!(formats.requested_format(&request(CF_HDROP)), Some(ShellDragFormat::Hdrop));
    assert_eq!(
        formats.requested_format(&request(0xc002)),
        Some(ShellDragFormat::FileNameW(0xc002))
    );
    assert_eq!(formats.requested_format(&request(3)), None);
    let rejected = [
        FormatRequest {
            aspect: 2,
            ..request(CF_HDROP)
        },
        FormatRequest {
            index: 0,
            ..request(CF_HDROP)
        },
        FormatRequest {
            mediums: 4,
            ..request(CF_HDROP)
        },
    ];
    for request in rejected {
        assert_eq!(formats.requested_format(&request), None);
    }
    let several = FormatRequest {
        mediums: 5,
        ..request(CF_HDROP)
    };
    assert_eq!(formats.requested_format(&several), Some(ShellDragFormat::Hdrop));
}

#[test]
fn drags_go_on_while_the_button_is_held() {
    assert_eq!(query_continue_drag(true, 1), DragContinuation::Cancel);
    assert_eq!(query_continue_drag(false, 0), DragContinuation::Drop);
    assert_eq!(query_continue_drag(false, 4), DragContinuation::Drop);
    assert_eq!(query_continue_drag(false, 5), DragContinuation::Continue);
}

#[test]
fn shell_data_has_its_layout() {
    let mut expected = vec![20, 0, 0, 0];
    expected.extend([0; 12]);
    expected.extend([1, 0, 0, 0]);
    expected.extend([b'a', 0, 0x34, 0x12, 0, 0, b'b', 0, 0, 0, 0, 0]);
    assert_eq!(build_hdrop(&vec![vec![0x61, 0x1234], vec![0x62]]), expected);
    assert_eq!(build_wide_string(&vec![0x61, 0x1234]), vec![b'a', 0, 0x34, 0x12, 0, 0]);
    assert_eq!(build_drop_effect(), vec![1, 0, 0, 0]);
}

#[test]
fn windows_drags_are_reported() {
    assert_eq!(completed_line(0), "Windows OLE drag completed with effect=0x0");
    assert_eq!(completed_line(31), "Windows OLE drag completed with effect=0x1f");
    assert_eq!(
        drag_drop_failed("HWND(0x1)", "denied"),
        ExternalDragError::StartFailed(
            "Windows OLE DoDragDrop failed for HWND(0x1): denied".to_string()
        )
    );
    assert_eq!(
        initialize_failed(Some("out of memory")),
        "Windows OLE initialize failed: out of memory"
    );
    assert_eq!(
        initialize_failed(None),
        "Windows OLE drag unavailable: plugin UI thread is already initialized as a \
         multithreaded COM apartment"
    );
}
