use video_clipper::locate::{adb_sdk_path, candidate_paths, find_adb, find_ffmpeg, find_in_path};

#[test]
fn candidates_put_path_before_fallbacks() {
    let dirs = vec!["/home/u/bin".to_string(), "/sbin/".to_string()];
    let c = candidate_paths("ffmpeg", Some(&dirs), false);
    assert_eq!(
        c,
        vec![
            "/home/u/bin/ffmpeg",
            "/sbin/ffmpeg",
            "/opt/homebrew/bin/ffmpeg",
            "/usr/local/bin/ffmpeg",
            "/usr/bin/ffmpeg",
            "/bin/ffmpeg"
        ]
    );
    assert_eq!(candidate_paths("adb", None, false).len(), 4);
    // An empty PATH entry stands for the current directory.
    assert_eq!(candidate_paths("adb", Some(&vec!["".to_string()]), false)[0], "adb");
}

#[test]
fn windows_fallbacks_look_for_exe_files() {
    let dirs = vec!["/tools".to_string()];
    let c = candidate_paths("adb", Some(&dirs), true);
    assert_eq!(c[0], std::path::Path::new("/tools").join("adb").to_string_lossy());
    for (k, dir) in ["/opt/homebrew/bin", "/usr/local/bin", "/usr/bin", "/bin"].iter().enumerate() {
        assert_eq!(c[k + 1], std::path::Path::new(dir).join("adb.exe").to_string_lossy());
    }
    assert_eq!(find_in_path("adb", None, true, &vec![false, true]), Some(c[2].clone()));
}

#[test]
fn first_place_holding_the_file_wins() {
    let dirs = vec!["/a".to_string(), "/b".to_string()];
    assert_eq!(find_in_path("xcrun", Some(&dirs), false, &vec![false, true, true]), Some("/b/xcrun".to_string()));
    assert_eq!(
        find_in_path("xcrun", Some(&dirs), false, &vec![false, false, false, false, false, true]),
        Some("/bin/xcrun".to_string())
    );
    assert_eq!(find_in_path("xcrun", Some(&dirs), false, &vec![false; 6]), None);
    // Places not probed count as holding nothing.
    assert_eq!(find_in_path("xcrun", Some(&dirs), false, &vec![]), None);
}

#[test]
fn path_entry_beats_fallback() {
    let dirs = vec!["/usr/local/bin".to_string()];
    let all_files = vec![true; 5];
    assert_eq!(find_ffmpeg(Some(&dirs), false, &all_files), Some("/usr/local/bin/ffmpeg".to_string()));
    assert_eq!(find_ffmpeg(None, false, &vec![false, false, true, false]), Some("/usr/bin/ffmpeg".to_string()));
}

#[test]
fn adb_falls_back_to_sdk_in_home() {
    assert_eq!(adb_sdk_path("/Users/me"), "/Users/me/Library/Android/sdk/platform-tools/adb");
    let none = vec![false; 4];
    assert_eq!(
        find_adb(None, false, &none, Some("/Users/me"), true),
        Some("/Users/me/Library/Android/sdk/platform-tools/adb".to_string())
    );
    assert_eq!(find_adb(None, false, &none, Some("/Users/me"), false), None);
    assert_eq!(find_adb(None, false, &none, None, true), None);
    assert_eq!(find_adb(None, false, &vec![true], Some("/Users/me"), true), Some("/opt/homebrew/bin/adb".to_string()));
}
