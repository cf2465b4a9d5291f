use spotify_mem_reader::memory::MemorySpace;
use spotify_mem_reader::reader::{
    ModuleEntry, OsSnapshot, PointerPath, ProcessEntry, Profile, SpotifyMemReader,
};
use spotify_mem_reader::{CoreError, CurrentTrack};

// The profile of the target build: name substrings, the two pointer paths,
// the title sentinel, the author terminator, and the per-field scan budget.
fn profile() -> Profile {
    Profile {
        process_name: b"Spotify.exe".to_vec(),
        process_module: b"Spotify.exe".to_vec(),
        text_module: b"libcef.dll".to_vec(),
        playing_path: PointerPath {
            static_offset: 0x016C_9300,
            offsets: vec![0x34, 0x0, 0x30, 0x4, 0x48],
        },
        track_path: PointerPath {
            static_offset: 0x0794_0354,
            offsets: vec![0x38, 0x3C, 0x4, 0x18, 0x0],
        },
        sentinel: vec![0x20, 0xC2, 0xB7],
        terminator: 0x00,
        field_budget: 256,
    }
}

fn put_u32(buf: &mut Vec<u8>, off: usize, v: u32) {
    let b = v.to_le_bytes();
    buf[off..off + 4].copy_from_slice(&b);
}

const BASE_S: u32 = 0x0100_0000;
const BASE_C: u32 = 0x0200_0000;

// A snapshot in which the target runs, both modules are loaded, the playing
// flag byte holds `flag`, and the track text stream holds `text`.
fn snapshot(flag: u8, text: &[u8]) -> OsSnapshot {
    let mut memory = MemorySpace::new();

    // First hop of the playing path: *(BASE_S + 0x016C9300) == 0x2000.
    memory.add_region(BASE_S + 0x016C_9300, 0x2000u32.to_le_bytes().to_vec());
    // Remaining hops land in one region at 0x2000:
    //   *(0x2000 + 0x34) == 0x2100, *(0x2100 + 0x0) == 0x2200,
    //   *(0x2200 + 0x30) == 0x2300, *(0x2300 + 0x4) == 0x2400,
    //   flag byte at 0x2400 + 0x48.
    let mut b = vec![0u8; 0x500];
    put_u32(&mut b, 0x034, 0x2100);
    put_u32(&mut b, 0x100, 0x2200);
    put_u32(&mut b, 0x230, 0x2300);
    put_u32(&mut b, 0x304, 0x2400);
    b[0x448] = flag;
    memory.add_region(0x2000, b);

    // First hop of the track path: *(BASE_C + 0x07940354) == 0x3000.
    memory.add_region(BASE_C + 0x0794_0354, 0x3000u32.to_le_bytes().to_vec());
    // Remaining hops in one region at 0x3000, with the text at 0x3400.
    let mut c = vec![0u8; 0x500];
    put_u32(&mut c, 0x038, 0x3100);
    put_u32(&mut c, 0x13C, 0x3200);
    put_u32(&mut c, 0x204, 0x3300);
    put_u32(&mut c, 0x318, 0x3400);
    c[0x400..0x400 + text.len()].copy_from_slice(text);
    memory.add_region(0x3000, c);

    OsSnapshot {
        processes: vec![ProcessEntry { pid: 1234, name: b"Spotify.exe\0\0garbage".to_vec() }],
        modules: vec![
            ModuleEntry { pid: 1234, name: b"Spotify.exe\0\0".to_vec(), base: BASE_S },
            ModuleEntry { pid: 1234, name: b"libcef.dll\0\0".to_vec(), base: BASE_C },
        ],
        memory,
    }
}

fn track_stream() -> Vec<u8> {
    let mut t = b"Bohemian Rhapsody".to_vec();
    t.extend_from_slice(&[0x20, 0xC2, 0xB7]);
    t.extend_from_slice(b"Queen");
    t.push(0x00);
    t
}

#[test]
fn absent_process_is_neutral() {
    let p = profile();
    let os = OsSnapshot { processes: vec![], modules: vec![], memory: MemorySpace::new() };
    assert!(!SpotifyMemReader::is_connected(&os, &p));
    assert_eq!(SpotifyMemReader::is_playing(&os, &p), None);
    assert!(SpotifyMemReader::current_track(&os, &p).is_none());
    assert_eq!(SpotifyMemReader::playing_state(&os, &p), Err(CoreError::Disconnected));
}

#[test]
fn padded_process_name_matches() {
    let procs = vec![ProcessEntry { pid: 7, name: b"Spotify.exe\0\0garbage".to_vec() }];
    assert_eq!(
        SpotifyMemReader::find_pid_by_name(&procs, &b"Spotify.exe".to_vec()),
        Some(7)
    );
}

#[test]
fn embedding_process_name_matches() {
    // Containment is deliberate, so a name that merely embeds the wanted
    // one matches as well.
    let procs = vec![ProcessEntry { pid: 9, name: b"NotSpotify.exeX".to_vec() }];
    assert_eq!(
        SpotifyMemReader::find_pid_by_name(&procs, &b"Spotify.exe".to_vec()),
        Some(9)
    );
}

#[test]
fn unrelated_process_name_does_not_match() {
    let procs = vec![ProcessEntry { pid: 3, name: b"Spotify.ex".to_vec() }];
    assert_eq!(SpotifyMemReader::find_pid_by_name(&procs, &b"Spotify.exe".to_vec()), None);
}

#[test]
fn first_matching_process_wins() {
    let procs = vec![
        ProcessEntry { pid: 1, name: b"other".to_vec() },
        ProcessEntry { pid: 2, name: b"Spotify.exe".to_vec() },
        ProcessEntry { pid: 3, name: b"Spotify.exe\0pad".to_vec() },
    ];
    assert_eq!(SpotifyMemReader::find_pid_by_name(&procs, &b"Spotify.exe".to_vec()), Some(2));
}

#[test]
fn module_of_other_process_is_ignored() {
    let mods = vec![
        ModuleEntry { pid: 5, name: b"libcef.dll".to_vec(), base: 0x500 },
        ModuleEntry { pid: 6, name: b"libcef.dll".to_vec(), base: 0x600 },
    ];
    assert_eq!(
        SpotifyMemReader::get_module_base_address(&mods, &b"libcef.dll".to_vec(), 6),
        Some(0x600)
    );
    assert_eq!(
        SpotifyMemReader::get_module_base_address(&mods, &b"libcef.dll".to_vec(), 7),
        None
    );
}

#[test]
fn missing_module_is_reported() {
    let p = profile();
    let os = OsSnapshot {
        processes: vec![ProcessEntry { pid: 1234, name: b"Spotify.exe".to_vec() }],
        modules: vec![],
        memory: MemorySpace::new(),
    };
    assert_eq!(SpotifyMemReader::playing_state(&os, &p), Err(CoreError::ModuleNotFound));
    assert_eq!(SpotifyMemReader::is_playing(&os, &p), None);
}

#[test]
fn unreadable_memory_is_reported() {
    let p = profile();
    let os = OsSnapshot {
        processes: vec![ProcessEntry { pid: 1234, name: b"Spotify.exe".to_vec() }],
        modules: vec![ModuleEntry { pid: 1234, name: b"Spotify.exe".to_vec(), base: BASE_S }],
        memory: MemorySpace::new(),
    };
    assert_eq!(SpotifyMemReader::playing_state(&os, &p), Err(CoreError::MemoryReadFailure));
    assert_eq!(SpotifyMemReader::is_playing(&os, &p), None);
}

#[test]
fn end_to_end_playing_track() {
    let p = profile();
    let os = snapshot(1, &track_stream());
    assert!(SpotifyMemReader::is_connected(&os, &p));
    assert_eq!(SpotifyMemReader::is_playing(&os, &p), Some(true));
    let track = SpotifyMemReader::current_track(&os, &p).expect("track expected");
    assert_eq!(track.title, "Bohemian Rhapsody");
    assert_eq!(track.author, "Queen");
    let same = CurrentTrack {
        title: "Bohemian Rhapsody".to_string(),
        author: "Queen".to_string(),
    };
    assert!(track == same);
    assert_eq!(track.label(), "Bohemian Rhapsody - Queen");
}

#[test]
fn not_playing_hides_track() {
    // The flag byte says stopped: the text stream is present and intact,
    // yet no track is reported — and "known stopped" stays distinct from
    // "unknown".
    let p = profile();
    let os = snapshot(0, &track_stream());
    assert_eq!(SpotifyMemReader::is_playing(&os, &p), Some(false));
    assert!(SpotifyMemReader::current_track(&os, &p).is_none());
}

#[test]
fn nonzero_flag_counts_as_playing() {
    let p = profile();
    let os = snapshot(3, &track_stream());
    assert_eq!(SpotifyMemReader::is_playing(&os, &p), Some(true));
}

#[test]
fn corrupt_text_stream_yields_no_track() {
    // Playing, but the text stream never shows the sentinel: the scan
    // gives up within its budget and no partial track escapes.
    let p = profile();
    let os = snapshot(1, b"no sentinel here");
    assert_eq!(SpotifyMemReader::is_playing(&os, &p), Some(true));
    assert!(SpotifyMemReader::current_track(&os, &p).is_none());
}
