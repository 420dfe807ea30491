# video_clipper

The verified core of a desktop tool that records an Android device's screen
over ADB (or an iOS simulator's through `xcrun simctl`), cuts the recording
into frames with `ffmpeg`, and saves images or puts them on the clipboard.

- `src/` is the library, written in Verus. Every function there carries a
  contract over the `Seq<char>` views of the texts it reads and writes:
  - `text`: lines, words, splitting, trimming, searching and replacing, as
    std documents them for `str`;
  - `adb`: reading `adb devices -l` and `adb mdns services` into the device
    listing (duplicates dropped, mDNS twins of manual connections hidden);
  - `simctl`: the booted, available simulators of a `simctl` listing;
  - `pairing`: what `adb pair`, `adb connect` and `adb disconnect` replies
    mean, and which advertised addresses to try after pairing;
  - `locate`: where the tools are looked for and which place wins;
  - `session`: the loaded video and the recording state, and the command
    lines around a recording;
  - `media`: where frames go and the `ffmpeg` command lines;
  - `image`: Base64 image payloads, where images are saved, and the
    clipboard commands, which take the image on standard input so that
    copying writes no file;
  - `flow`: the requests a multi-step command makes of the application
    (find a tool, run a command, write a file, ...) and the reports it gets
    back. Starting and stopping a recording, pairing, taking frames, saving
    an image and copying one to the clipboard are state machines whose
    every step is specified;
  - `response`, `device`, `command`: the plain data exchanged with the
    application.
- `app/` is the Tauri application: it carries out the requests of the
  library's state machines (running commands, touching files) and reports
  back plain values.
- `tests/` exercises the library on concrete inputs.
