use video_clipper::command::CommandOutcome;
use video_clipper::image::{
    clean_base64, clipboard_failure, copied_to_clipboard, decode_image, hex_text, image_name, image_path, image_saved,
    image_saved_as, macos_clipboard_script, windows_clipboard_script, xclip_args,
};

#[test]
fn data_url_headers_are_removed() {
    assert_eq!(clean_base64("data:image/png;base64,aGVsbG8="), "aGVsbG8=");
    assert_eq!(clean_base64("data:image/jpeg;base64,aGVs\n"), "aGVs");
    assert_eq!(clean_base64("  aGVs  "), "aGVs");
    assert_eq!(clean_base64(""), "");
}

#[test]
fn images_decode() {
    assert_eq!(decode_image("data:image/png;base64,aGVsbG8=").unwrap(), b"hello".to_vec());
    assert_eq!(decode_image("aGVs").unwrap(), b"hel".to_vec());
    assert_eq!(decode_image("").unwrap(), Vec::<u8>::new());
}

#[test]
fn bad_base64_is_reported() {
    let err = decode_image("data:image/png;base64,a$==").unwrap_err();
    assert!(!err.success);
    assert_eq!(err.error.as_deref(), Some("Invalid symbol 36, offset 1."));
    let err = decode_image("aGVsbG8").unwrap_err();
    assert!(err.error.is_some());
}

#[test]
fn image_names_and_places() {
    assert_eq!(image_name("clip", true), "clip_grid.png");
    assert_eq!(image_name("clip", false), "clip_frame.png");
    assert_eq!(image_path("/v/clip.mp4", true), "/v/clip_grid.png");
    assert_eq!(image_path("clip.mp4", false), "clip_frame.png");
}

#[test]
fn save_answers() {
    let r = image_saved(Ok(()), "/v/clip_grid.png");
    assert!(r.success);
    assert_eq!(r.message, "Grid image saved: clip_grid.png");
    assert_eq!(r.data.as_deref(), Some("/v/clip_grid.png"));
    let r = image_saved(Err("disk full".to_string()), "/v/clip_grid.png");
    assert_eq!(r.error.as_deref(), Some("disk full"));
}

#[test]
fn clipboard_commands() {
    assert_eq!(hex_text(&[0x89, 0x50, 0x0a, 0xff, 0x00]), "89500AFF00");
    assert_eq!(hex_text(&[]), "");
    assert_eq!(
        macos_clipboard_script(&[0x89, 0x50]),
        "set the clipboard to \u{ab}data PNGf8950\u{bb}"
    );
    assert_eq!(
        windows_clipboard_script("aGVs"),
        "Add-Type -AssemblyName System.Windows.Forms; Add-Type -AssemblyName System.Drawing; $bytes = [Convert]::FromBase64String('aGVs'); $stream = New-Object System.IO.MemoryStream(,$bytes); [System.Windows.Forms.Clipboard]::SetImage([System.Drawing.Image]::FromStream($stream))"
    );
    assert_eq!(xclip_args(), vec!["-selection", "clipboard", "-t", "image/png", "-i"]);
}

#[test]
fn clipboard_answers() {
    let ok = CommandOutcome::Finished { success: true, stdout: vec![], stderr: vec![] };
    assert!(clipboard_failure(&ok).is_none());
    let bad = CommandOutcome::Finished { success: false, stdout: vec![], stderr: b"denied".to_vec() };
    assert_eq!(clipboard_failure(&bad).unwrap().error.as_deref(), Some("denied"));
    let gone = CommandOutcome::NotStarted { error: "not found".to_string() };
    assert_eq!(clipboard_failure(&gone).unwrap().error.as_deref(), Some("not found"));
    let r = copied_to_clipboard();
    assert!(r.success);
    assert_eq!(r.message, "Copied to clipboard");
    assert!(r.data.is_none());
}

#[test]
fn save_answer_names_the_file() {
    let r = image_saved_as(Ok(()), "/v/a_frame.png", "a_frame.png");
    assert_eq!(r.message, "Grid image saved: a_frame.png");
    assert_eq!(r.data.as_deref(), Some("/v/a_frame.png"));
    assert_eq!(image_saved_as(Err("e".to_string()), "/p", "p").error.as_deref(), Some("e"));
}
